//! The controlled plant: an idealized triple-integrator chain with no
//! damping, no mass and no saturation.
//!
//! Each `update` records the received command and then integrates three
//! chained accumulators in fixed order: the command accumulates into the
//! acceleration, the acceleration into the velocity, and the velocity into
//! the location. All operations are exact fixed-point additions.

use vstd::prelude::*;

use crate::fixed::{fits_i64, fits_in_i64};

verus! {

/// Mathematical model of the plant state, over unbounded integers.
pub ghost struct PlantModel {
    /// The most recently received command.
    pub throttle: int,
    /// Accumulated commands.
    pub acceleration: int,
    /// Accumulated accelerations.
    pub velocity: int,
    /// Accumulated velocities: the measurement fed back to the controller.
    pub location: int,
}

/// The plant state after one `update` call with the given command.
pub open spec fn plant_step(p: PlantModel, throttle: int) -> PlantModel {
    let acceleration = p.acceleration + throttle;
    let velocity = p.velocity + acceleration;
    let location = p.location + velocity;
    PlantModel { throttle, acceleration, velocity, location }
}

/// Whether every value this tick's `update` stores is representable as an
/// `i64` fixed-point number.
pub open spec fn plant_update_fits(p: PlantModel, throttle: int) -> bool {
    &&& fits_i64(plant_step(p, throttle).acceleration)
    &&& fits_i64(plant_step(p, throttle).velocity)
    &&& fits_i64(plant_step(p, throttle).location)
}

/// The plant state reached from rest after `n` ticks of a constant command.
pub open spec fn plant_after_constant(c: int, n: nat) -> PlantModel
    decreases n,
{
    if n == 0 {
        PlantModel { throttle: 0, acceleration: 0, velocity: 0, location: 0 }
    } else {
        plant_step(plant_after_constant(c, (n - 1) as nat), c)
    }
}

/// Closed form of the triple cumulative sum: after `n` ticks of a constant
/// command `c` from rest, the acceleration is `c * n`, the velocity is `c`
/// times the `n`-th triangular number, and the location is `c` times the
/// `n`-th tetrahedral number (for `c = 1`: 1, 4, 10, 20, ...).
pub proof fn lemma_constant_command_closed_form(c: int, n: nat)
    ensures
        plant_after_constant(c, n).acceleration == c * n,
        2 * plant_after_constant(c, n).velocity == c * n * (n + 1),
        6 * plant_after_constant(c, n).location == c * n * (n + 1) * (n + 2),
    decreases n,
{
    if n == 0 {
        assert(c * n == 0 && c * n * (n + 1) == 0 && c * n * (n + 1) * (n + 2) == 0)
            by (nonlinear_arith)
            requires
                n == 0,
        ;
    } else {
        let m = (n - 1) as nat;
        lemma_constant_command_closed_form(c, m);
        let p = plant_after_constant(c, m);
        let q = plant_after_constant(c, n);
        assert(q == plant_step(p, c));
        assert(q.acceleration == c * n && 2 * q.velocity == c * n * (n + 1) && 6 * q.location == c
            * n * (n + 1) * (n + 2)) by (nonlinear_arith)
            requires
                n >= 1,
                m == n - 1,
                q.acceleration == p.acceleration + c,
                q.velocity == p.velocity + q.acceleration,
                q.location == p.location + q.velocity,
                p.acceleration == c * m,
                2 * p.velocity == c * m * (m + 1),
                6 * p.location == c * m * (m + 1) * (m + 2),
        ;
    }
}

/// The plant: a triple integrator over fixed-point numbers.
pub struct RControl {
    /// The most recently received command.
    pub throttle: i64,
    /// Accumulated commands.
    pub acceleration: i64,
    /// Accumulated accelerations.
    pub velocity: i64,
    /// Accumulated velocities: the position the controller measures.
    pub location: i64,
}

impl View for RControl {
    type V = PlantModel;

    open spec fn view(&self) -> PlantModel {
        PlantModel {
            throttle: self.throttle as int,
            acceleration: self.acceleration as int,
            velocity: self.velocity as int,
            location: self.location as int,
        }
    }
}

impl RControl {
    /// Constructs a plant at rest: all state zero.
    pub fn new() -> (p: RControl)
        ensures
            p@ == (PlantModel { throttle: 0, acceleration: 0, velocity: 0, location: 0 }),
    {
        RControl { throttle: 0, acceleration: 0, velocity: 0, location: 0 }
    }

    /// One time step of Euler integration: records the command, then
    /// accumulates command into acceleration, acceleration into velocity and
    /// velocity into location, returning the new location.
    pub fn update(&mut self, throttle: i64) -> (location: i64)
        requires
            plant_update_fits(old(self)@, throttle as int),
        ensures
            final(self)@ == plant_step(old(self)@, throttle as int),
            location == final(self).location,
    {
        self.throttle = throttle;
        let acceleration: i128 = (self.acceleration as i128) + (throttle as i128);
        self.acceleration = acceleration as i64;
        let velocity: i128 = (self.velocity as i128) + acceleration;
        self.velocity = velocity as i64;
        let location: i128 = (self.location as i128) + velocity;
        self.location = location as i64;
        self.location
    }

    /// Whether this tick's `update` would stay within the `i64` fixed-point
    /// range for the given command, without mutating anything.
    pub fn update_fits(&self, throttle: i64) -> (r: bool)
        ensures
            r == plant_update_fits(self@, throttle as int),
    {
        let acceleration: i128 = (self.acceleration as i128) + (throttle as i128);
        let velocity: i128 = (self.velocity as i128) + acceleration;
        let location: i128 = (self.location as i128) + velocity;
        fits_in_i64(acceleration) && fits_in_i64(velocity) && fits_in_i64(location)
    }
}

} // verus!
