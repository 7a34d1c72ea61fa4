//! Newtonian attraction between point masses, and the explicit Euler step
//! that it drives.
//!
//! The functions here work on a sequence of bodies; the system types hold such
//! a sequence and hand it to them.

use crate::body::{accelerated, moved, Body, BodyView};
use crate::scalar::{
    is_zero, over, product, quotient, same_number, spec_is_finite, spec_is_nan, spec_is_zero,
    times, ZERO,
};
use crate::vec2d::{
    distance_squared, origin, scaled, unit, vector_difference, vector_sum, Coords, Vec2d,
};
use vstd::prelude::*;

verus! {

/// The gravitational constant, 6.67408e-11 in SI units.
pub const G: u64 = 0x3dd2_5877_5e37_fa03;

/// The bodies of a vector, each as what it is.
pub open spec fn views(bodies: Seq<Body>) -> Seq<BodyView> {
    Seq::new(bodies.len(), |i: int| bodies[i]@)
}

/// The vectors of a vector, each as its coordinates.
pub open spec fn coords(vectors: Seq<Vec2d>) -> Seq<Coords> {
    Seq::new(vectors.len(), |i: int| vectors[i]@)
}

/// The acceleration that `other` gives to `body` at the squared distance
/// `r2`: of size `G * mass / r2`, along the unit vector from `body` to
/// `other`. Where `r2` is zero the pull is the origin.
pub open spec fn pull_at(body: BodyView, other: BodyView, r2: u64) -> Coords {
    if spec_is_zero(r2) {
        origin()
    } else {
        scaled(
            unit(vector_difference(other.position, body.position)),
            quotient(product(G, other.mass), r2),
        )
    }
}

/// The acceleration that `other` gives to `body`, at the squared distance
/// between the two.
pub open spec fn pull(body: BodyView, other: BodyView) -> Coords {
    pull_at(body, other, distance_squared(other.position, body.position))
}

/// The indices below `k` of the bodies that pull on body `i`, in rising
/// order: those whose identity differs from that of body `i`.
pub open spec fn contributors_below(bodies: Seq<BodyView>, i: int, k: int) -> Seq<int>
    decreases k,
{
    if k <= 0 {
        Seq::empty()
    } else if bodies[k - 1].id != bodies[i].id {
        contributors_below(bodies, i, k - 1).push(k - 1)
    } else {
        contributors_below(bodies, i, k - 1)
    }
}

/// The indices of all bodies that pull on body `i`.
pub open spec fn contributors(bodies: Seq<BodyView>, i: int) -> Seq<int> {
    contributors_below(bodies, i, bodies.len() as int)
}

/// The pulls on body `i` of the bodies at the indices `from`, added up from
/// the origin in the order of `from`.
pub open spec fn total_pull(bodies: Seq<BodyView>, i: int, from: Seq<int>) -> Coords
    decreases from.len(),
{
    if from.len() == 0 {
        origin()
    } else {
        vector_sum(
            total_pull(bodies, i, from.drop_last()),
            pull(bodies[i], bodies[from.last()]),
        )
    }
}

/// The acceleration of body `i`.
pub open spec fn acceleration(bodies: Seq<BodyView>, i: int) -> Coords {
    total_pull(bodies, i, contributors(bodies, i))
}

/// The acceleration of each body, in the order of the bodies.
pub open spec fn accelerations(bodies: Seq<BodyView>) -> Seq<Coords> {
    Seq::new(bodies.len(), |i: int| acceleration(bodies, i))
}

/// The bodies after each has moved for `dt` at its velocity.
pub open spec fn positions_advanced(bodies: Seq<BodyView>, dt: u64) -> Seq<BodyView> {
    Seq::new(
        bodies.len(),
        |i: int| moved(bodies[i], product(bodies[i].velocity.x, dt), product(bodies[i].velocity.y, dt)),
    )
}

/// The bodies after each has gained, for `dt`, the acceleration that the
/// given bodies give it.
pub open spec fn velocities_advanced(bodies: Seq<BodyView>, dt: u64) -> Seq<BodyView> {
    Seq::new(
        bodies.len(),
        |i: int|
            accelerated(
                bodies[i],
                product(acceleration(bodies, i).x, dt),
                product(acceleration(bodies, i).y, dt),
            ),
    )
}

/// Whether a number to which `rate` times a zero is added stays the number
/// it was: it does where `rate` is finite, and where it is a NaN to begin
/// with. Else the product is a NaN, and so is the sum.
pub open spec fn rests(value: u64, rate: u64) -> bool {
    spec_is_finite(rate) || spec_is_nan(value)
}

/// `after` holds, where `before` holds a coordinate that rests at the given
/// rate, the same number.
pub open spec fn vector_kept(before: Coords, rate: Coords, after: Coords) -> bool {
    &&& rests(before.x, rate.x) ==> same_number(after.x, before.x)
    &&& rests(before.y, rate.y) ==> same_number(after.y, before.y)
}

/// Each position of `after` is what it was in `before`, in every coordinate
/// that rests at the body's velocity.
pub open spec fn positions_kept(before: Seq<BodyView>, after: Seq<BodyView>) -> bool {
    forall|i: int|
        0 <= i < before.len() ==> vector_kept(
            (#[trigger] before[i]).position,
            before[i].velocity,
            after[i].position,
        )
}

/// Each velocity of `after` is what it was in `before`, in every coordinate
/// that rests at the body's acceleration.
pub open spec fn velocities_kept(before: Seq<BodyView>, after: Seq<BodyView>) -> bool {
    forall|i: int|
        0 <= i < before.len() ==> vector_kept(
            (#[trigger] before[i]).velocity,
            acceleration(before, i),
            after[i].velocity,
        )
}

/// The acceleration that `other` gives to `body` at the squared distance
/// `r2`. A squared distance of zero gives no acceleration, whatever the
/// masses.
pub fn attraction_at(body: &Body, other: &Body, r2: u64) -> (a: Vec2d)
    ensures
        a@ == pull_at(body@, other@, r2),
{
    if is_zero(r2) {
        return Vec2d::new(ZERO, ZERO);
    }
    let a_scalar = over(times(G, other.get_mass()), r2);
    let direction = (other.get_position() - body.get_position()).normalized();
    direction * a_scalar
}

/// The acceleration that `other` gives to `body`.
pub fn attraction(body: &Body, other: &Body) -> (a: Vec2d)
    ensures
        a@ == pull(body@, other@),
{
    let r2 = other.get_position().dist_sq(&body.get_position());
    attraction_at(body, other, r2)
}

/// The acceleration of the body at index `i`: the pulls of all bodies of
/// another identity, added up in the order of the bodies.
pub fn acceleration_of(bodies: &Vec<Body>, i: usize) -> (acc: Vec2d)
    requires
        i < bodies.len(),
    ensures
        acc@ == acceleration(views(bodies@), i as int),
{
    let ghost bs = views(bodies@);
    let b = bodies[i];
    let mut acc = Vec2d::new(ZERO, ZERO);
    let mut k: usize = 0;
    while k < bodies.len()
        invariant
            k <= bodies.len(),
            i < bodies.len(),
            bs == views(bodies@),
            b == bodies[i as int],
            acc@ == total_pull(bs, i as int, contributors_below(bs, i as int, k as int)),
        decreases bodies.len() - k,
    {
        let other = bodies[k];
        if other.get_id() != b.get_id() {
            let ghost before = contributors_below(bs, i as int, k as int);
            assert(before.push(k as int).drop_last() == before);
            acc = acc + attraction(&b, &other);
        }
        k += 1;
    }
    acc
}

/// The acceleration of every body, in the order of the bodies.
pub fn calculate_acc(bodies: &Vec<Body>) -> (accs: Vec<Vec2d>)
    ensures
        coords(accs@) == accelerations(views(bodies@)),
{
    let mut accs: Vec<Vec2d> = Vec::new();
    let mut i: usize = 0;
    while i < bodies.len()
        invariant
            i <= bodies.len(),
            accs.len() == i,
            forall|j: int| 0 <= j < i ==> (#[trigger] accs[j])@ == acceleration(views(bodies@), j),
        decreases bodies.len() - i,
    {
        accs.push(acceleration_of(bodies, i));
        i += 1;
    }
    assert(coords(accs@) =~= accelerations(views(bodies@)));
    accs
}

/// Moves every body for `dt` at the velocity it has. Nothing but positions
/// changes. A step of zero length leaves a coordinate of a position the
/// number it was, unless the velocity there is infinite or a NaN and turns
/// it into a NaN.
pub fn advance_positions(bodies: &mut Vec<Body>, dt: u64)
    ensures
        views(final(bodies)@) == positions_advanced(views(old(bodies)@), dt),
        spec_is_zero(dt) ==> positions_kept(views(old(bodies)@), views(final(bodies)@)),
{
    let ghost before = bodies@;
    let mut i: usize = 0;
    while i < bodies.len()
        invariant
            i <= bodies.len(),
            bodies.len() == before.len(),
            forall|j: int| i <= j < before.len() ==> bodies[j] == before[j],
            forall|j: int|
                0 <= j < i ==> (#[trigger] bodies[j])@ == positions_advanced(views(before), dt)[j],
            spec_is_zero(dt) ==> forall|j: int|
                0 <= j < i ==> vector_kept(
                    (#[trigger] before[j])@.position,
                    before[j]@.velocity,
                    bodies[j]@.position,
                ),
        decreases bodies.len() - i,
    {
        let mut b = bodies[i];
        let v = b.get_velocity();
        b.update_pos(times(v.get_x(), dt), times(v.get_y(), dt));
        bodies.set(i, b);
        i += 1;
    }
    assert(views(bodies@) =~= positions_advanced(views(before), dt));
}

/// Gives every body, for `dt`, the acceleration that the bodies give it as
/// they stand: all accelerations are taken before any velocity changes.
/// Nothing but velocities changes. A step of zero length leaves a coordinate
/// of a velocity the number it was, unless the acceleration there is infinite
/// or a NaN and turns it into a NaN.
pub fn advance_velocities(bodies: &mut Vec<Body>, dt: u64)
    ensures
        views(final(bodies)@) == velocities_advanced(views(old(bodies)@), dt),
        spec_is_zero(dt) ==> velocities_kept(views(old(bodies)@), views(final(bodies)@)),
{
    let ghost before = bodies@;
    let accs = calculate_acc(bodies);
    assert(accs.len() == coords(accs@).len());
    let mut i: usize = 0;
    while i < bodies.len()
        invariant
            i <= bodies.len(),
            bodies.len() == before.len(),
            accs.len() == before.len(),
            coords(accs@) == accelerations(views(before)),
            forall|j: int| i <= j < before.len() ==> bodies[j] == before[j],
            forall|j: int|
                0 <= j < i ==> (#[trigger] bodies[j])@ == velocities_advanced(views(before), dt)[j],
            spec_is_zero(dt) ==> forall|j: int|
                0 <= j < i ==> vector_kept(
                    (#[trigger] before[j])@.velocity,
                    acceleration(views(before), j),
                    bodies[j]@.velocity,
                ),
        decreases bodies.len() - i,
    {
        let mut b = bodies[i];
        let acc = accs[i];
        assert(acc@ == coords(accs@)[i as int]);
        b.update_velocity(times(acc.get_x(), dt), times(acc.get_y(), dt));
        bodies.set(i, b);
        i += 1;
    }
    assert(views(bodies@) =~= velocities_advanced(views(before), dt));
}

/// A copy of the bodies, in their order.
pub fn copied(bodies: &Vec<Body>) -> (copy: Vec<Body>)
    ensures
        copy@ == bodies@,
{
    let mut copy: Vec<Body> = Vec::new();
    let mut i: usize = 0;
    while i < bodies.len()
        invariant
            i <= bodies.len(),
            copy@ == bodies@.take(i as int),
        decreases bodies.len() - i,
    {
        copy.push(bodies[i]);
        assert(bodies@.take(i as int).push(bodies[i as int]) == bodies@.take(i + 1));
        i += 1;
    }
    assert(bodies@.take(bodies.len() as int) == bodies@);
    copy
}

/// Moving the bodies keeps their number and order, and of each body its
/// mass, identity and velocity.
pub proof fn moving_keeps_the_rest(bodies: Seq<BodyView>, dt: u64)
    ensures
        positions_advanced(bodies, dt).len() == bodies.len(),
        forall|i: int|
            0 <= i < bodies.len() ==> {
                let after = #[trigger] positions_advanced(bodies, dt)[i];
                &&& after.id == bodies[i].id
                &&& after.mass == bodies[i].mass
                &&& after.velocity == bodies[i].velocity
            },
{
}

/// Accelerating the bodies keeps their number and order, and of each body
/// its mass, identity and position.
pub proof fn accelerating_keeps_the_rest(bodies: Seq<BodyView>, dt: u64)
    ensures
        velocities_advanced(bodies, dt).len() == bodies.len(),
        forall|i: int|
            0 <= i < bodies.len() ==> {
                let after = #[trigger] velocities_advanced(bodies, dt)[i];
                &&& after.id == bodies[i].id
                &&& after.mass == bodies[i].mass
                &&& after.position == bodies[i].position
            },
{
}

/// No two bodies share an identity.
pub open spec fn distinct_ids(bodies: Seq<BodyView>) -> bool {
    forall|i: int, j: int|
        0 <= i < bodies.len() && 0 <= j < bodies.len() && i != j ==> bodies[i].id != bodies[j].id
}

/// The indices below `k` without `i`, in rising order.
pub open spec fn others_below(i: int, k: int) -> Seq<int> {
    if k <= i {
        Seq::new(k as nat, |j: int| j)
    } else {
        Seq::new((k - 1) as nat, |j: int| if j < i { j } else { j + 1 })
    }
}

/// The bodies that pull on body `i` are those of another identity, whatever
/// else they share with it: an index is among the contributors below `k` if
/// and only if it is below `k` and its body's identity differs.
pub proof fn contributors_differ_in_identity(bodies: Seq<BodyView>, i: int, k: int)
    requires
        0 <= i < bodies.len(),
        0 <= k <= bodies.len(),
    ensures
        forall|j: int| #[trigger]
            contributors_below(bodies, i, k).contains(j) <==> 0 <= j < k && bodies[j].id
                != bodies[i].id,
    decreases k,
{
    if k > 0 {
        contributors_differ_in_identity(bodies, i, k - 1);
        let before = contributors_below(bodies, i, k - 1);
        let last = k - 1;
        let extended = before.push(last);
        if bodies[last].id != bodies[i].id {
            assert forall|j: int| #[trigger]
                extended.contains(j) <==> 0 <= j < k && bodies[j].id != bodies[i].id by {
                if extended.contains(j) {
                    let at = choose|at: int| 0 <= at < extended.len() && #[trigger] extended[at] == j;
                    if at < before.len() {
                        assert(before[at] == j);
                        assert(before.contains(j));
                    }
                }
                if 0 <= j < k && bodies[j].id != bodies[i].id {
                    if j == last {
                        assert(extended[before.len() as int] == j);
                    } else {
                        assert(before.contains(j));
                        let at = choose|at: int| 0 <= at < before.len() && #[trigger] before[at] == j;
                        assert(extended[at] == j);
                    }
                }
            }
        }
    }
}

/// No body pulls on itself.
pub proof fn no_body_pulls_on_itself(bodies: Seq<BodyView>, i: int)
    requires
        0 <= i < bodies.len(),
    ensures
        !contributors(bodies, i).contains(i),
{
    contributors_differ_in_identity(bodies, i, bodies.len() as int);
}

/// Where no two bodies share an identity, the bodies that pull on body `i`
/// are all the others, each once and in their order: one fewer than there are
/// bodies.
pub proof fn all_others_pull(bodies: Seq<BodyView>, i: int)
    requires
        0 <= i < bodies.len(),
        distinct_ids(bodies),
    ensures
        contributors(bodies, i) == others_below(i, bodies.len() as int),
        contributors(bodies, i).len() == bodies.len() - 1,
{
    others_pull_below(bodies, i, bodies.len() as int);
}

proof fn others_pull_below(bodies: Seq<BodyView>, i: int, k: int)
    requires
        0 <= i < bodies.len(),
        0 <= k <= bodies.len(),
        distinct_ids(bodies),
    ensures
        contributors_below(bodies, i, k) == others_below(i, k),
    decreases k,
{
    if k > 0 {
        others_pull_below(bodies, i, k - 1);
        if k - 1 == i {
            assert(others_below(i, k - 1) =~= others_below(i, k));
        } else {
            assert(others_below(i, k - 1).push(k - 1) =~= others_below(i, k));
        }
    } else {
        assert(contributors_below(bodies, i, k) =~= others_below(i, k));
    }
}

} // verus!
