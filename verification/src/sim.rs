//! The simulation driver: owns the tick loop's termination policy.
//!
//! Each tick the driver feeds the plant's last location back into the
//! controller, applies the controller's command to the plant, and then
//! decides whether the run keeps going: a location strictly inside the
//! tolerance band around the setpoint extends the convergence streak (a
//! streak of more than `STREAK_LIMIT` consecutive qualifying ticks
//! converges), any other location resets the streak, a location whose
//! magnitude exceeds a hundred times the setpoint diverges at once, and a
//! run that consumes its whole iteration budget is exhausted.
//!
//! The transition of one tick is the spec function `sim_tick`; a whole run
//! is `sim_run`. The executable driver follows them exactly for as long as
//! every value stays inside the `i64` fixed-point range, and reports the
//! first tick that would leave it instead of continuing.

use vstd::prelude::*;

use crate::controller::{
    ctrl_output, ctrl_step, ctrl_update_fits, ctrl_wf, CtrlModel, PIDController,
};
use crate::plant::{plant_step, plant_update_fits, PlantModel, RControl};

verus! {

/// A run converges when the streak of consecutive qualifying ticks exceeds
/// this limit, i.e. on the `STREAK_LIMIT + 1`-th consecutive qualifying
/// tick.
pub const STREAK_LIMIT: u64 = 10;

/// Reference proportional gain: 1/100 of a unit, in fixed-point.
pub const GAIN_PROPORTIONAL: i64 = 10_000;

/// Reference integral gain: 1/10000 of a unit, in fixed-point.
pub const GAIN_INTEGRAL: i64 = 100;

/// Reference derivative gain: 6/10 of a unit, in fixed-point.
pub const GAIN_DERIVATIVE: i64 = 600_000;

/// Reference time step: one unit, in fixed-point.
pub const TICK_DURATION: i64 = 1_000_000;

/// Reference output multiplier: one unit, in fixed-point.
pub const OUTPUT_SCALE: i64 = 1_000_000;

/// Reference target value: one hundred units, in fixed-point.
pub const SETPOINT: i64 = 100_000_000;

/// Reference iteration budget.
pub const TICK_BUDGET: u64 = 10_000;

/// The driver's termination state.
#[derive(Clone, Copy, Debug, PartialEq, Eq, Structural)]
pub enum Status {
    /// The loop is still ticking.
    Running,
    /// The location stayed inside the tolerance band long enough: success.
    Converged,
    /// The location escaped a hundred times the setpoint: failure.
    Diverged,
    /// The iteration budget ran out first: failure.
    Exhausted,
}

/// The fixed parameters of one simulation run.
#[derive(Clone, Copy)]
pub struct SimConfig {
    /// Proportional gain of the controller.
    pub gain_proportional: i64,
    /// Integral gain of the controller.
    pub gain_integral: i64,
    /// Derivative gain of the controller.
    pub gain_derivative: i64,
    /// Time step of the controller; must be strictly positive.
    pub tick_duration: i64,
    /// Multiplier applied to the controller's raw output.
    pub output_scale: i64,
    /// The target value the controller drives the plant toward.
    pub setpoint: i64,
    /// Upper bound on the number of ticks.
    pub budget: u64,
}

/// What one tick reports: its index and the command and location it
/// produced.
#[derive(Clone, Copy, Debug, PartialEq, Eq, Structural)]
pub struct TickReport {
    /// The 0-based index of the tick.
    pub tick_index: u64,
    /// The command the controller produced this tick.
    pub throttle: i64,
    /// The plant's location after applying the command.
    pub location: i64,
}

/// Mathematical model of the whole simulation state.
pub ghost struct SimModel {
    /// The controller's state.
    pub controller: CtrlModel,
    /// The plant's state.
    pub plant: PlantModel,
    /// The target value.
    pub setpoint: int,
    /// Upper bound on the number of ticks.
    pub budget: int,
    /// Number of ticks performed so far.
    pub tick_index: int,
    /// Number of consecutive qualifying ticks just performed.
    pub streak: int,
    /// The termination state.
    pub status: Status,
}

/// The driver's invariant: the controller is well formed, and the streak
/// never exceeds the tick count, which never exceeds the budget.
pub open spec fn sim_wf(s: SimModel) -> bool {
    &&& ctrl_wf(s.controller)
    &&& 0 <= s.streak <= s.tick_index <= s.budget
}

/// Whether a location lies strictly inside the tolerance band around the
/// setpoint: `location * 11/10 < setpoint` and `location * 9/10 > setpoint`,
/// stated exactly over fixed-point integers. The band is nonempty only for
/// negative setpoints; for a positive setpoint the two conditions exclude
/// each other.
pub open spec fn qualifying(location: int, setpoint: int) -> bool {
    11 * location < 10 * setpoint && 9 * location > 10 * setpoint
}

/// Whether a location has escaped a hundred times the setpoint.
pub open spec fn divergent(location: int, setpoint: int) -> bool {
    vstd::math::abs(location) > 100 * setpoint
}

/// The command the controller produces on the next tick.
pub open spec fn sim_throttle(s: SimModel) -> int {
    ctrl_output(s.controller, s.setpoint, s.plant.location)
}

/// The plant's location after the next tick.
pub open spec fn sim_next_location(s: SimModel) -> int {
    plant_step(s.plant, sim_throttle(s)).location
}

/// Whether every value of the next tick stays inside the `i64` fixed-point
/// range.
pub open spec fn sim_tick_fits(s: SimModel) -> bool {
    &&& ctrl_update_fits(s.controller, s.setpoint, s.plant.location)
    &&& plant_update_fits(s.plant, sim_throttle(s))
}

/// One tick of the simulation: controller update, plant update, then the
/// termination policy. The convergence check runs first and takes priority;
/// the divergence check runs on every tick that did not converge; a tick
/// that reaches the budget without either exhausts the run.
pub open spec fn sim_tick(s: SimModel) -> SimModel {
    let controller = ctrl_step(s.controller, s.setpoint, s.plant.location);
    let plant = plant_step(s.plant, sim_throttle(s));
    let tick_index = s.tick_index + 1;
    let streak = if qualifying(plant.location, s.setpoint) {
        s.streak + 1
    } else {
        0
    };
    let converged = qualifying(plant.location, s.setpoint) && s.streak + 1 > STREAK_LIMIT;
    let status0 = if converged {
        Status::Converged
    } else {
        Status::Running
    };
    let status1 = if status0 is Running && divergent(plant.location, s.setpoint) {
        Status::Diverged
    } else {
        status0
    };
    let status = if status1 is Running && tick_index >= s.budget {
        Status::Exhausted
    } else {
        status1
    };
    SimModel { controller, plant, tick_index, streak, status, ..s }
}

/// A whole run: tick until the status leaves `Running` or the budget is
/// consumed; a run that is still `Running` with no budget left is
/// exhausted.
pub open spec fn sim_run(s: SimModel) -> SimModel
    decreases s.budget - s.tick_index,
{
    if !(s.status is Running) {
        s
    } else if s.tick_index >= s.budget {
        SimModel { status: Status::Exhausted, ..s }
    } else {
        sim_run(sim_tick(s))
    }
}

/// One tick preserves the driver's invariant.
pub proof fn lemma_tick_preserves_wf(s: SimModel)
    requires
        sim_wf(s),
        s.status is Running,
        s.tick_index < s.budget,
    ensures
        sim_wf(sim_tick(s)),
{
}

/// A disqualifying tick resets the convergence streak to zero and cannot
/// converge, whatever the streak was before.
pub proof fn lemma_disqualifying_tick_resets(s: SimModel)
    requires
        sim_wf(s),
        s.status is Running,
        s.tick_index < s.budget,
        !qualifying(sim_next_location(s), s.setpoint),
    ensures
        sim_tick(s).streak == 0,
        !(sim_tick(s).status is Converged),
{
}

/// Convergence fires exactly when a qualifying tick extends a streak that
/// already reached `STREAK_LIMIT`: it takes `STREAK_LIMIT + 1` consecutive
/// qualifying ticks, never fewer.
pub proof fn lemma_convergence_needs_full_streak(s: SimModel)
    requires
        sim_wf(s),
        s.status is Running,
        s.tick_index < s.budget,
    ensures
        sim_tick(s).status is Converged <==> (qualifying(sim_next_location(s), s.setpoint)
            && s.streak >= STREAK_LIMIT),
        qualifying(sim_next_location(s), s.setpoint) ==> sim_tick(s).streak == s.streak + 1,
{
}

/// Every run terminates: from any well-formed state, the simulation reaches
/// a terminal status without exceeding its iteration budget.
pub proof fn lemma_run_reaches_terminal(s: SimModel)
    requires
        sim_wf(s),
    ensures
        !(sim_run(s).status is Running),
        sim_run(s).tick_index <= s.budget,
    decreases s.budget - s.tick_index,
{
    if s.status is Running && s.tick_index < s.budget {
        lemma_tick_preserves_wf(s);
        lemma_run_reaches_terminal(sim_tick(s));
    }
}

/// Determinism: one tick and a whole run are pure functions of the state,
/// so two simulations started from equal states follow identical
/// trajectories and end in identical terminal states.
pub proof fn lemma_run_deterministic(a: SimModel, b: SimModel)
    requires
        a == b,
    ensures
        sim_tick(a) == sim_tick(b),
        sim_run(a) == sim_run(b),
{
}

/// Whether a location lies strictly inside the tolerance band around the
/// setpoint.
pub fn is_qualifying(location: i64, setpoint: i64) -> (r: bool)
    ensures
        r == qualifying(location as int, setpoint as int),
{
    let l: i128 = location as i128;
    let t: i128 = setpoint as i128;
    11 * l < 10 * t && 9 * l > 10 * t
}

/// Whether a location has escaped a hundred times the setpoint.
pub fn is_divergent(location: i64, setpoint: i64) -> (r: bool)
    ensures
        r == divergent(location as int, setpoint as int),
{
    let l: i128 = location as i128;
    let t: i128 = setpoint as i128;
    let magnitude: i128 = if l < 0 {
        -l
    } else {
        l
    };
    magnitude > 100 * t
}

/// A full closed-loop simulation: controller, plant, and the driver's
/// termination state.
pub struct Simulation {
    /// The feedback controller.
    pub controller: PIDController,
    /// The controlled plant.
    pub process: RControl,
    /// The target value.
    pub setpoint: i64,
    /// Upper bound on the number of ticks.
    pub budget: u64,
    /// Number of ticks performed so far.
    pub tick_index: u64,
    /// Number of consecutive qualifying ticks just performed.
    pub streak: u64,
    /// The termination state.
    pub status: Status,
}

impl View for Simulation {
    type V = SimModel;

    open spec fn view(&self) -> SimModel {
        SimModel {
            controller: self.controller@,
            plant: self.process@,
            setpoint: self.setpoint as int,
            budget: self.budget as int,
            tick_index: self.tick_index as int,
            streak: self.streak as int,
            status: self.status,
        }
    }
}

impl Simulation {
    /// Builds a fresh simulation: controller and plant at rest, tick count
    /// and streak at zero, status `Running`.
    pub fn new(config: SimConfig) -> (s: Simulation)
        requires
            config.tick_duration > 0,
        ensures
            sim_wf(s@),
            s@ == (SimModel {
                controller: CtrlModel {
                    kp: config.gain_proportional as int,
                    ki: config.gain_integral as int,
                    kd: config.gain_derivative as int,
                    dt: config.tick_duration as int,
                    output_multiplier: config.output_scale as int,
                    integral: 0,
                    previous_error: 0,
                },
                plant: PlantModel { throttle: 0, acceleration: 0, velocity: 0, location: 0 },
                setpoint: config.setpoint as int,
                budget: config.budget as int,
                tick_index: 0,
                streak: 0,
                status: Status::Running,
            }),
    {
        Simulation {
            controller: PIDController::new(
                config.gain_proportional,
                config.gain_integral,
                config.gain_derivative,
                config.tick_duration,
                config.output_scale,
            ),
            process: RControl::new(),
            setpoint: config.setpoint,
            budget: config.budget,
            tick_index: 0,
            streak: 0,
            status: Status::Running,
        }
    }

    /// One tick of the loop: exactly `sim_tick` when every value stays
    /// inside the `i64` fixed-point range, and `None`, with the state left
    /// unchanged, when this tick would leave it.
    pub fn tick(&mut self) -> (r: Option<TickReport>)
        requires
            sim_wf(old(self)@),
            old(self).status is Running,
            old(self).tick_index < old(self).budget,
        ensures
            r is Some <==> sim_tick_fits(old(self)@),
            r is Some ==> final(self)@ == sim_tick(old(self)@) && sim_wf(final(self)@),
            r is Some ==> r->Some_0.tick_index == old(self).tick_index && r->Some_0.throttle
                as int == sim_throttle(old(self)@) && r->Some_0.location as int
                == sim_next_location(old(self)@),
            r is None ==> final(self)@ == old(self)@,
    {
        let throttle: i64 = match self.controller.checked_output(
            self.setpoint,
            self.process.location,
        ) {
            Some(t) => t,
            None => {
                return None;
            },
        };
        if !self.process.update_fits(throttle) {
            return None;
        }
        let index: u64 = self.tick_index;
        let command: i64 = self.controller.update(self.setpoint, self.process.location);
        let location: i64 = self.process.update(command);
        self.tick_index = index + 1;
        if is_qualifying(location, self.setpoint) {
            self.streak = self.streak + 1;
            if self.streak > STREAK_LIMIT {
                self.status = Status::Converged;
            }
        } else {
            self.streak = 0;
        }
        if matches!(self.status, Status::Running) && is_divergent(location, self.setpoint) {
            self.status = Status::Diverged;
        }
        if matches!(self.status, Status::Running) && self.tick_index == self.budget {
            self.status = Status::Exhausted;
        }
        Some(TickReport { tick_index: index, throttle: command, location })
    }

    /// Runs the loop to its end: exactly `sim_run` when every tick stays
    /// inside the `i64` fixed-point range, so the result is a terminal
    /// status reached within the budget. Returns `None`, leaving the status
    /// `Running`, if some tick would leave the representable range.
    pub fn run(&mut self) -> (r: Option<Status>)
        requires
            sim_wf(old(self)@),
        ensures
            sim_wf(final(self)@),
            r is Some ==> final(self)@ == sim_run(old(self)@) && r->Some_0 == final(self).status
                && !(final(self).status is Running),
            r is None ==> final(self).status is Running && !sim_tick_fits(final(self)@)
                && sim_run(final(self)@) == sim_run(old(self)@),
    {
        while matches!(self.status, Status::Running) && self.tick_index < self.budget
            invariant
                sim_wf(self@),
                sim_run(self@) == sim_run(old(self)@),
            decreases self.budget - self.tick_index,
        {
            match self.tick() {
                Some(_) => {},
                None => {
                    return None;
                },
            }
        }
        if matches!(self.status, Status::Running) {
            self.status = Status::Exhausted;
        }
        Some(self.status)
    }
}

/// The tuning, target and budget of the reference simulation.
pub fn reference_config() -> (c: SimConfig)
    ensures
        c.gain_proportional == GAIN_PROPORTIONAL,
        c.gain_integral == GAIN_INTEGRAL,
        c.gain_derivative == GAIN_DERIVATIVE,
        c.tick_duration == TICK_DURATION,
        c.output_scale == OUTPUT_SCALE,
        c.setpoint == SETPOINT,
        c.budget == TICK_BUDGET,
        c.tick_duration > 0,
{
    SimConfig {
        gain_proportional: GAIN_PROPORTIONAL,
        gain_integral: GAIN_INTEGRAL,
        gain_derivative: GAIN_DERIVATIVE,
        tick_duration: TICK_DURATION,
        output_scale: OUTPUT_SCALE,
        setpoint: SETPOINT,
        budget: TICK_BUDGET,
    }
}

} // verus!
