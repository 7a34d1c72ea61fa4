//! Scalars: IEEE-754 binary64 numbers, carried as their 64-bit encodings.
//!
//! Tests on the encoding (zero, NaN, sign) are verified here. Rounded
//! arithmetic is done in software: sums, products and quotients by
//! `rustc_apfloat`, rounding to nearest with ties to even, and square roots by
//! `softfloat`. Each of those results has a name below, and the contracts of
//! this crate are stated over the names.

use rustc_apfloat::ieee::Double;
use rustc_apfloat::{Float, Round};
use vstd::prelude::*;

verus! {

/// The sign bit of an encoding: an encoding at or above it is negative.
pub const SIGN_BIT: u64 = 0x8000_0000_0000_0000;

/// The encoding of positive infinity; a larger magnitude is a NaN.
pub const INFINITY: u64 = 0x7ff0_0000_0000_0000;

/// The encoding of positive zero.
pub const ZERO: u64 = 0;

/// The encoding of what `Float::add_r` of `rustc_apfloat` returns for the two
/// numbers as `Double`s, rounding to nearest with ties to even.
pub uninterp spec fn sum(a: u64, b: u64) -> u64;

/// The encoding of what `Float::mul_r` of `rustc_apfloat` returns for the two
/// numbers as `Double`s, rounding to nearest with ties to even.
pub uninterp spec fn product(a: u64, b: u64) -> u64;

/// The encoding of what `Float::div_r` of `rustc_apfloat` returns for the two
/// numbers as `Double`s, rounding to nearest with ties to even.
pub uninterp spec fn quotient(a: u64, b: u64) -> u64;

/// The encoding that `softfloat::F64::sqrt` returns for the encoding.
pub uninterp spec fn square_root(a: u64) -> u64;

/// The encoding without its sign bit.
pub open spec fn spec_magnitude(a: u64) -> u64 {
    if a >= SIGN_BIT {
        (a - SIGN_BIT) as u64
    } else {
        a
    }
}

/// Positive or negative zero.
pub open spec fn spec_is_zero(a: u64) -> bool {
    spec_magnitude(a) == 0
}

/// Not a number.
pub open spec fn spec_is_nan(a: u64) -> bool {
    spec_magnitude(a) > INFINITY
}

/// Neither infinite nor a NaN.
pub open spec fn spec_is_finite(a: u64) -> bool {
    spec_magnitude(a) < INFINITY
}

/// Greater than zero: positive infinity is, a zero or a NaN is not.
pub open spec fn spec_is_positive(a: u64) -> bool {
    0 < a <= INFINITY
}

/// The number with the opposite sign.
pub open spec fn spec_negated(a: u64) -> u64 {
    if a >= SIGN_BIT {
        (a - SIGN_BIT) as u64
    } else {
        (a + SIGN_BIT) as u64
    }
}

/// `a - b`, which is `a + (-b)`.
pub open spec fn difference(a: u64, b: u64) -> u64 {
    sum(a, spec_negated(b))
}

/// Two encodings of one number: the same bits, two zeros, or two NaNs.
pub open spec fn same_number(a: u64, b: u64) -> bool {
    a == b || (spec_is_zero(a) && spec_is_zero(b)) || (spec_is_nan(a) && spec_is_nan(b))
}

/// The zero that is negative where `negative` holds.
pub open spec fn zero_of_sign(negative: bool) -> u64 {
    if negative {
        SIGN_BIT
    } else {
        ZERO
    }
}

/// The encoding without its sign bit.
#[verifier::when_used_as_spec(spec_magnitude)]
pub fn magnitude(a: u64) -> (r: u64)
    ensures
        r == spec_magnitude(a),
{
    if a >= SIGN_BIT {
        a - SIGN_BIT
    } else {
        a
    }
}

/// Whether `a` is a zero, of either sign.
#[verifier::when_used_as_spec(spec_is_zero)]
pub fn is_zero(a: u64) -> (r: bool)
    ensures
        r == spec_is_zero(a),
{
    magnitude(a) == 0
}

/// Whether `a` is a NaN.
#[verifier::when_used_as_spec(spec_is_nan)]
pub fn is_nan(a: u64) -> (r: bool)
    ensures
        r == spec_is_nan(a),
{
    magnitude(a) > INFINITY
}

/// Whether `a` is neither infinite nor a NaN.
#[verifier::when_used_as_spec(spec_is_finite)]
pub fn is_finite(a: u64) -> (r: bool)
    ensures
        r == spec_is_finite(a),
{
    magnitude(a) < INFINITY
}

/// Whether `a` is greater than zero.
#[verifier::when_used_as_spec(spec_is_positive)]
pub fn is_positive(a: u64) -> (r: bool)
    ensures
        r == spec_is_positive(a),
{
    0 < a && a <= INFINITY
}

/// `-a`.
#[verifier::when_used_as_spec(spec_negated)]
pub fn negated(a: u64) -> (r: u64)
    ensures
        r == spec_negated(a),
{
    if a >= SIGN_BIT {
        a - SIGN_BIT
    } else {
        a + SIGN_BIT
    }
}

/// Calls `Float::add_r` of `rustc_apfloat` on the two numbers as `Double`s.
///
/// Trusted: the result is the encoding named `sum(a, b)`. Of the cases that
/// `add_r` settles by the kind of its operands, three are stated: a NaN on
/// the left gives a NaN; adding a zero to a number that is neither zero nor
/// NaN gives that number back; two zeros give the negative zero where both
/// are negative, and the positive zero else.
#[verifier::external_body]
fn soft_sum(a: u64, b: u64) -> (r: u64)
    ensures
        r == sum(a, b),
        is_nan(a) ==> is_nan(r),
        is_zero(b) && !is_nan(a) && !is_zero(a) ==> r == a,
        is_zero(a) && is_zero(b) ==> r == zero_of_sign(a >= SIGN_BIT && b >= SIGN_BIT),
{
    let x = Double::from_bits(u128::from(a));
    let y = Double::from_bits(u128::from(b));
    x.add_r(y, Round::NearestTiesToEven).value.to_bits() as u64
}

/// Calls `Float::mul_r` of `rustc_apfloat` on the two numbers as `Double`s.
///
/// Trusted: the result is the encoding named `product(a, b)`. One case that
/// `mul_r` settles by the kind of its operands is stated: a finite number
/// times a zero is the negative zero where the two signs differ, and the
/// positive zero else.
#[verifier::external_body]
fn soft_product(a: u64, b: u64) -> (r: u64)
    ensures
        r == product(a, b),
        is_zero(b) && is_finite(a) ==> r == zero_of_sign((a >= SIGN_BIT) != (b >= SIGN_BIT)),
{
    let x = Double::from_bits(u128::from(a));
    let y = Double::from_bits(u128::from(b));
    x.mul_r(y, Round::NearestTiesToEven).value.to_bits() as u64
}

/// Calls `Float::div_r` of `rustc_apfloat` on the two numbers as `Double`s.
///
/// Trusted: the result is the encoding named `quotient(a, b)`.
#[verifier::external_body]
pub(crate) fn over(a: u64, b: u64) -> (r: u64)
    ensures
        r == quotient(a, b),
{
    let x = Double::from_bits(u128::from(a));
    let y = Double::from_bits(u128::from(b));
    x.div_r(y, Round::NearestTiesToEven).value.to_bits() as u64
}

/// Calls `softfloat::F64::sqrt` on the encoding.
///
/// Trusted: the result is the encoding named `square_root(a)`.
#[verifier::external_body]
pub(crate) fn root(a: u64) -> (r: u64)
    ensures
        r == square_root(a),
{
    softfloat::F64::from_bits(a).sqrt().to_bits()
}

/// `a + b`. Adding a zero leaves the number as it is, and a NaN stays a
/// NaN whatever is added; two zeros give the negative zero where both are
/// negative, and the positive zero else.
pub fn plus(a: u64, b: u64) -> (r: u64)
    ensures
        r == sum(a, b),
        is_zero(b) || is_nan(a) ==> same_number(r, a),
        is_zero(a) && is_zero(b) ==> r == zero_of_sign(a >= SIGN_BIT && b >= SIGN_BIT),
{
    soft_sum(a, b)
}

/// `a * b`. A finite number times a zero is the negative zero where the two
/// signs differ, and the positive zero else.
pub fn times(a: u64, b: u64) -> (r: u64)
    ensures
        r == product(a, b),
        is_zero(b) && is_finite(a) ==> r == zero_of_sign((a >= SIGN_BIT) != (b >= SIGN_BIT)),
{
    soft_product(a, b)
}

/// `a - b`, computed as `a + (-b)`.
pub fn minus(a: u64, b: u64) -> (r: u64)
    ensures
        r == difference(a, b),
{
    plus(a, negated(b))
}

} // verus!
