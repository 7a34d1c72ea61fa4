//! Two-dimensional vectors of scalars.

use crate::scalar::{
    difference, is_positive, minus, over, plus, product, quotient, root, spec_is_positive,
    spec_is_zero, square_root, sum, times, ZERO,
};
use vstd::prelude::*;

verus! {

/// What a vector is: its two coordinates, as encodings.
pub struct Coords {
    pub x: u64,
    pub y: u64,
}

/// The vector with both coordinates positive zero.
pub open spec fn origin() -> Coords {
    Coords { x: ZERO, y: ZERO }
}

/// The sum, coordinate by coordinate.
pub open spec fn vector_sum(a: Coords, b: Coords) -> Coords {
    Coords { x: sum(a.x, b.x), y: sum(a.y, b.y) }
}

/// The difference `a - b`, coordinate by coordinate.
pub open spec fn vector_difference(a: Coords, b: Coords) -> Coords {
    Coords { x: difference(a.x, b.x), y: difference(a.y, b.y) }
}

/// Each coordinate times `k`.
pub open spec fn scaled(v: Coords, k: u64) -> Coords {
    Coords { x: product(v.x, k), y: product(v.y, k) }
}

/// The square of the length of `v`.
pub open spec fn length_squared(v: Coords) -> u64 {
    sum(product(v.x, v.x), product(v.y, v.y))
}

/// The square of the distance from `a` to `b`.
pub open spec fn distance_squared(a: Coords, b: Coords) -> u64 {
    length_squared(vector_difference(b, a))
}

/// `v` divided by the square root of `l2`; the origin where `l2` is not
/// greater than zero.
pub open spec fn unit_for(v: Coords, l2: u64) -> Coords {
    if spec_is_positive(l2) {
        Coords { x: quotient(v.x, square_root(l2)), y: quotient(v.y, square_root(l2)) }
    } else {
        origin()
    }
}

/// `v` divided by its length; the origin where the squared length of `v` is
/// not greater than zero.
pub open spec fn unit(v: Coords) -> Coords {
    unit_for(v, length_squared(v))
}

#[derive(Debug, Clone, Copy)]
pub struct Vec2d {
    x: u64,
    y: u64,
}

impl View for Vec2d {
    type V = Coords;

    closed spec fn view(&self) -> Coords {
        Coords { x: self.x, y: self.y }
    }
}

impl Vec2d {
    pub fn new(x: u64, y: u64) -> (v: Vec2d)
        ensures
            v@ == (Coords { x, y }),
    {
        Vec2d { x: x, y: y }
    }

    /// The squared distance from this vector to `other`.
    pub fn dist_sq(&self, other: &Vec2d) -> (d: u64)
        ensures
            d == distance_squared(self@, other@),
    {
        let dx = minus(other.x, self.x);
        let dy = minus(other.y, self.y);
        plus(times(dx, dx), times(dy, dy))
    }

    /// The squared length of this vector: positive zero for a vector of
    /// zeros.
    pub fn length_sq(&self) -> (l: u64)
        ensures
            l == length_squared(self@),
            spec_is_zero(self@.x) && spec_is_zero(self@.y) ==> l == ZERO,
    {
        plus(times(self.x, self.x), times(self.y, self.y))
    }

    /// This vector divided by the square root of `length_sq`. Where
    /// `length_sq` is not greater than zero (a zero, a negative number or a
    /// NaN) there is nothing to divide by, and the result is the origin.
    pub fn over_length(&self, length_sq: u64) -> (v: Vec2d)
        ensures
            v@ == unit_for(self@, length_sq),
    {
        if !is_positive(length_sq) {
            return Vec2d::new(ZERO, ZERO);
        }
        let l = root(length_sq);
        Vec2d { x: over(self.x, l), y: over(self.y, l) }
    }

    /// This vector scaled to length one. A vector whose squared length is not
    /// greater than zero has no direction and gives the origin: so does a
    /// vector of zeros.
    pub fn normalized(&self) -> (v: Vec2d)
        ensures
            v@ == unit(self@),
            spec_is_zero(self@.x) && spec_is_zero(self@.y) ==> v@ == origin(),
    {
        self.over_length(self.length_sq())
    }

    pub fn get_x(&self) -> (x: u64)
        ensures
            x == self@.x,
    {
        self.x
    }

    pub fn get_y(&self) -> (y: u64)
        ensures
            y == self@.y,
    {
        self.y
    }

    pub fn set_x(&mut self, value: u64)
        ensures
            final(self)@ == (Coords { x: value, y: old(self)@.y }),
    {
        self.x = value;
    }

    pub fn set_y(&mut self, value: u64)
        ensures
            final(self)@ == (Coords { x: old(self)@.x, y: value }),
    {
        self.y = value;
    }
}

impl core::ops::Add for Vec2d {
    type Output = Vec2d;

    fn add(self, other: Vec2d) -> (v: Vec2d)
        ensures
            v@ == vector_sum(self@, other@),
    {
        Vec2d { x: plus(self.x, other.x), y: plus(self.y, other.y) }
    }
}

impl vstd::std_specs::ops::AddSpecImpl for Vec2d {
    open spec fn obeys_add_spec() -> bool {
        true
    }

    open spec fn add_req(self, other: Vec2d) -> bool {
        true
    }

    closed spec fn add_spec(self, other: Vec2d) -> Vec2d {
        Vec2d { x: sum(self.x, other.x), y: sum(self.y, other.y) }
    }
}

impl core::ops::Sub for Vec2d {
    type Output = Vec2d;

    fn sub(self, other: Vec2d) -> (v: Vec2d)
        ensures
            v@ == vector_difference(self@, other@),
    {
        Vec2d { x: minus(self.x, other.x), y: minus(self.y, other.y) }
    }
}

impl vstd::std_specs::ops::SubSpecImpl for Vec2d {
    open spec fn obeys_sub_spec() -> bool {
        true
    }

    open spec fn sub_req(self, other: Vec2d) -> bool {
        true
    }

    closed spec fn sub_spec(self, other: Vec2d) -> Vec2d {
        Vec2d { x: difference(self.x, other.x), y: difference(self.y, other.y) }
    }
}

impl core::ops::Mul<u64> for Vec2d {
    type Output = Vec2d;

    fn mul(self, other: u64) -> (v: Vec2d)
        ensures
            v@ == scaled(self@, other),
    {
        Vec2d { x: times(self.x, other), y: times(self.y, other) }
    }
}

impl vstd::std_specs::ops::MulSpecImpl<u64> for Vec2d {
    open spec fn obeys_mul_spec() -> bool {
        true
    }

    open spec fn mul_req(self, other: u64) -> bool {
        true
    }

    closed spec fn mul_spec(self, other: u64) -> Vec2d {
        Vec2d { x: product(self.x, other), y: product(self.y, other) }
    }
}

} // verus!
