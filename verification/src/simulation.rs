//! The driver of a run: it owns the system, turns the time that a frame took
//! into simulated time, and takes one step for it.

use crate::body::{Body, BodyView};
use crate::gravity::{
    accelerating_keeps_the_rest, moving_keeps_the_rest, positions_advanced, velocities_advanced,
    views,
};
use crate::nbody::NBody;
use crate::scalar::{product, times};
use vstd::prelude::*;

verus! {

/// Simulated seconds per second of frame time, 60000.
pub const TIME_SCALE: u64 = 0x40ed_4c00_0000_0000;

/// The bodies after one step of `dt` simulated seconds: positions first, at
/// the velocities the bodies had, then velocities, by the accelerations at
/// the new positions.
pub open spec fn stepped(bodies: Seq<BodyView>, dt: u64) -> Seq<BodyView> {
    velocities_advanced(positions_advanced(bodies, dt), dt)
}

/// A step keeps the number and order of the bodies, and of each body its
/// mass and identity.
pub proof fn a_step_keeps_the_bodies(bodies: Seq<BodyView>, dt: u64)
    ensures
        stepped(bodies, dt).len() == bodies.len(),
        forall|i: int|
            0 <= i < bodies.len() ==> {
                let after = #[trigger] stepped(bodies, dt)[i];
                after.id == bodies[i].id && after.mass == bodies[i].mass
            },
{
    moving_keeps_the_rest(bodies, dt);
    accelerating_keeps_the_rest(positions_advanced(bodies, dt), dt);
}

#[derive(Debug)]
pub struct Simulation {
    state: NBody,
}

impl View for Simulation {
    type V = Seq<BodyView>;

    closed spec fn view(&self) -> Seq<BodyView> {
        self.state@
    }
}

impl Simulation {
    /// A simulation of copies of the given bodies.
    pub fn new(bodies: &Vec<Body>) -> (simulation: Simulation)
        ensures
            simulation@ == views(bodies@),
    {
        Simulation { state: NBody::new(bodies) }
    }

    /// Takes one step for a frame that took `dt` seconds.
    pub fn update(&mut self, dt: u64)
        ensures
            final(self)@ == stepped(old(self)@, product(TIME_SCALE, dt)),
    {
        let scaled = times(TIME_SCALE, dt);
        self.state.update_positions(scaled);
        self.state.update_velocities(scaled);
    }

    /// The bodies as they stand, for whoever draws them.
    pub fn get_bodies(&self) -> (bodies: &Vec<Body>)
        ensures
            views(bodies@) == self@,
    {
        self.state.get_bodies()
    }
}

} // verus!
