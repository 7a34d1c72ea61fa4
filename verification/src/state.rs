//! The state of a run: the bodies, as they stand after the steps taken so far.

use crate::body::{Body, BodyView};
use crate::gravity::{
    accelerations, advance_positions, advance_velocities, coords, copied, positions_advanced,
    positions_kept, velocities_advanced, velocities_kept, views,
};
use crate::scalar::spec_is_zero;
use crate::vec2d::Vec2d;
use vstd::prelude::*;

verus! {

/// The bodies keep their number and their order for as long as the state
/// lives; a step changes positions and velocities only.
#[derive(Debug)]
pub struct State {
    bodies: Vec<Body>,
}

impl View for State {
    type V = Seq<BodyView>;

    closed spec fn view(&self) -> Seq<BodyView> {
        views(self.bodies@)
    }
}

impl State {
    /// A state of copies of the given bodies, in their order.
    pub fn new(bodies: &Vec<Body>) -> (state: State)
        ensures
            state@ == views(bodies@),
    {
        State { bodies: copied(bodies) }
    }

    /// The net acceleration of each body, in the order of the bodies.
    pub fn calculate_acc(&self) -> (accs: Vec<Vec2d>)
        ensures
            coords(accs@) == accelerations(self@),
    {
        crate::gravity::calculate_acc(&self.bodies)
    }

    /// Moves every body for `dt` seconds at its current velocity. A step of
    /// zero length leaves a coordinate of a position the number it was, unless
    /// the velocity there is infinite or a NaN and turns it into a NaN.
    pub fn update_positions(&mut self, dt: u64)
        ensures
            final(self)@ == positions_advanced(old(self)@, dt),
            spec_is_zero(dt) ==> positions_kept(old(self)@, final(self)@),
    {
        advance_positions(&mut self.bodies, dt);
    }

    /// Gives every body, for `dt` seconds, the acceleration that the bodies
    /// give it where they stand now. A step of zero length leaves a
    /// coordinate of a velocity the number it was, unless the acceleration
    /// there is infinite or a NaN and turns it into a NaN.
    pub fn update_velocities(&mut self, dt: u64)
        ensures
            final(self)@ == velocities_advanced(old(self)@, dt),
            spec_is_zero(dt) ==> velocities_kept(old(self)@, final(self)@),
    {
        advance_velocities(&mut self.bodies, dt);
    }

    pub fn get_bodies(&self) -> (bodies: &Vec<Body>)
        ensures
            views(bodies@) == self@,
    {
        &self.bodies
    }
}

} // verus!
