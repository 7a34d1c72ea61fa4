//! A point mass.

use crate::scalar::{
    difference, minus, plus, product, same_number, spec_is_nan, spec_is_zero, sum, times, ZERO,
};
use crate::vec2d::{origin, Coords, Vec2d};
use vstd::prelude::*;

verus! {

/// What a body is: mass, position and velocity as encodings, and the
/// identity by which it is told apart from the others.
pub struct BodyView {
    pub mass: u64,
    pub position: Coords,
    pub velocity: Coords,
    pub id: i32,
}

/// `b` with `dx` and `dy` added to its position.
pub open spec fn moved(b: BodyView, dx: u64, dy: u64) -> BodyView {
    BodyView { position: Coords { x: sum(b.position.x, dx), y: sum(b.position.y, dy) }, ..b }
}

/// `b` with `d_vx` and `d_vy` added to its velocity.
pub open spec fn accelerated(b: BodyView, d_vx: u64, d_vy: u64) -> BodyView {
    BodyView { velocity: Coords { x: sum(b.velocity.x, d_vx), y: sum(b.velocity.y, d_vy) }, ..b }
}

/// Side of the square over which bodies are scattered, 1e9 metres.
pub const EXTENT: u64 = 0x41cd_cd65_0000_0000;

/// Upper bound of the mass of a scattered body, 1e22 kilograms.
pub const MAX_MASS: u64 = 0x4480_f0cf_064d_d592;

/// Width of the range of each velocity coordinate of a scattered body, 1000
/// metres per second.
pub const SPEED_RANGE: u64 = 0x408f_4000_0000_0000;

/// One half.
pub const HALF: u64 = 0x3fe0_0000_0000_0000;

/// The body that five samples make: position and mass are the samples
/// scaled to the square and to the mass bound; each velocity coordinate is
/// its sample, less one half, scaled to the speed range, and added to the
/// zero velocity of a body at rest.
pub open spec fn scattered(id: i32, x: u64, y: u64, m: u64, vx: u64, vy: u64) -> BodyView {
    accelerated(
        BodyView {
            mass: product(m, MAX_MASS),
            position: Coords { x: product(x, EXTENT), y: product(y, EXTENT) },
            velocity: origin(),
            id,
        },
        product(difference(vx, HALF), SPEED_RANGE),
        product(difference(vy, HALF), SPEED_RANGE),
    )
}

#[derive(Debug, Clone, Copy)]
pub struct Body {
    mass: u64,
    position: Vec2d,
    velocity: Vec2d,
    id: i32,
}

impl View for Body {
    type V = BodyView;

    closed spec fn view(&self) -> BodyView {
        BodyView {
            mass: self.mass,
            position: self.position@,
            velocity: self.velocity@,
            id: self.id,
        }
    }
}

impl Body {
    /// A body of mass `m` at rest at `(x, y)`.
    pub fn new(m: u64, x: u64, y: u64, id: i32) -> (b: Body)
        ensures
            b@ == (BodyView { mass: m, position: Coords { x, y }, velocity: origin(), id }),
    {
        Body { mass: m, position: Vec2d::new(x, y), velocity: Vec2d::new(ZERO, ZERO), id: id }
    }

    /// A body for the start of a run, made of five samples that the caller
    /// drew from the unit interval: somewhere in the square, of a mass below
    /// the bound, moving at up to half the speed range along each axis.
    pub fn scattered(id: i32, x: u64, y: u64, m: u64, vx: u64, vy: u64) -> (b: Body)
        ensures
            b@ == scattered(id, x, y, m, vx, vy),
    {
        let mut b = Body::new(times(m, MAX_MASS), times(x, EXTENT), times(y, EXTENT), id);
        b.update_velocity(
            times(minus(vx, HALF), SPEED_RANGE),
            times(minus(vy, HALF), SPEED_RANGE),
        );
        b
    }

    pub fn get_position(&self) -> (p: Vec2d)
        ensures
            p@ == self@.position,
    {
        self.position
    }

    pub fn get_velocity(&self) -> (v: Vec2d)
        ensures
            v@ == self@.velocity,
    {
        self.velocity
    }

    /// Adds `(d_vx, d_vy)` to the velocity. A coordinate to which a zero is
    /// added stays the number it was, and so does one that is a NaN.
    pub fn update_velocity(&mut self, d_vx: u64, d_vy: u64)
        ensures
            final(self)@ == accelerated(old(self)@, d_vx, d_vy),
            spec_is_zero(d_vx) || spec_is_nan(old(self)@.velocity.x) ==> same_number(
                final(self)@.velocity.x,
                old(self)@.velocity.x,
            ),
            spec_is_zero(d_vy) || spec_is_nan(old(self)@.velocity.y) ==> same_number(
                final(self)@.velocity.y,
                old(self)@.velocity.y,
            ),
    {
        let (vx, vy) = (self.velocity.get_x(), self.velocity.get_y());
        self.velocity.set_x(plus(vx, d_vx));
        self.velocity.set_y(plus(vy, d_vy));
    }

    /// Adds `(dx, dy)` to the position. A coordinate to which a zero is added
    /// stays the number it was, and so does one that is a NaN.
    pub fn update_pos(&mut self, dx: u64, dy: u64)
        ensures
            final(self)@ == moved(old(self)@, dx, dy),
            spec_is_zero(dx) || spec_is_nan(old(self)@.position.x) ==> same_number(
                final(self)@.position.x,
                old(self)@.position.x,
            ),
            spec_is_zero(dy) || spec_is_nan(old(self)@.position.y) ==> same_number(
                final(self)@.position.y,
                old(self)@.position.y,
            ),
    {
        let (x, y) = (self.position.get_x(), self.position.get_y());
        self.position.set_x(plus(x, dx));
        self.position.set_y(plus(y, dy));
    }

    pub fn get_mass(&self) -> (m: u64)
        ensures
            m == self@.mass,
    {
        self.mass
    }

    pub fn get_id(&self) -> (id: i32)
        ensures
            id == self@.id,
    {
        self.id
    }
}

} // verus!
