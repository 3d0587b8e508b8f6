//! The PID feedback controller: a stateful numeric transform that turns the
//! error between a setpoint and a measurement into a corrective command.
//!
//! Each `update` computes the instantaneous error, accumulates it into the
//! integral term (unbounded by design, no anti-windup clamp), estimates the
//! derivative from the previous tick's error, and returns the scaled weighted
//! sum of the three terms. The behaviour is specified exactly by `ctrl_step`
//! and `ctrl_output` over the unbounded-integer model `CtrlModel`.

use vstd::prelude::*;

use crate::fixed::{
    fits_i64, fits_in_i64, fmul, lemma_fmul_zero, lemma_mul_bounds, lemma_tdiv_magnitude, tdiv,
    tdiv128, SCALE,
};

verus! {

/// Mathematical model of the controller state, over unbounded integers.
pub ghost struct CtrlModel {
    /// Proportional gain.
    pub kp: int,
    /// Integral gain.
    pub ki: int,
    /// Derivative gain.
    pub kd: int,
    /// Time step used for integral accumulation and derivative estimation.
    pub dt: int,
    /// Multiplier applied to the raw control-law output.
    pub output_multiplier: int,
    /// Running sum of `error * dt` across all ticks since construction.
    pub integral: int,
    /// The error from the immediately preceding tick; `0` before the first.
    pub previous_error: int,
}

/// The controller's invariant: the time step is strictly positive (it is a
/// divisor on every tick).
pub open spec fn ctrl_wf(c: CtrlModel) -> bool {
    c.dt > 0
}

/// The instantaneous error.
pub open spec fn ctrl_error(setpoint: int, actual: int) -> int {
    setpoint - actual
}

/// The integral term after accumulating this tick's error.
pub open spec fn ctrl_integral_next(c: CtrlModel, setpoint: int, actual: int) -> int {
    c.integral + fmul(ctrl_error(setpoint, actual), c.dt)
}

/// The derivative estimate: change in error over the time step.
pub open spec fn ctrl_derivative(c: CtrlModel, setpoint: int, actual: int) -> int {
    tdiv((ctrl_error(setpoint, actual) - c.previous_error) * SCALE, c.dt)
}

/// The raw control-law output: weighted sum of the proportional, integral and
/// derivative terms.
pub open spec fn ctrl_raw_output(c: CtrlModel, setpoint: int, actual: int) -> int {
    fmul(c.kp, ctrl_error(setpoint, actual)) + fmul(c.ki, ctrl_integral_next(c, setpoint, actual))
        + fmul(c.kd, ctrl_derivative(c, setpoint, actual))
}

/// The command the controller returns: the raw output times the multiplier.
pub open spec fn ctrl_output(c: CtrlModel, setpoint: int, actual: int) -> int {
    fmul(c.output_multiplier, ctrl_raw_output(c, setpoint, actual))
}

/// The controller state after one `update` call.
pub open spec fn ctrl_step(c: CtrlModel, setpoint: int, actual: int) -> CtrlModel {
    CtrlModel {
        integral: ctrl_integral_next(c, setpoint, actual),
        previous_error: ctrl_error(setpoint, actual),
        ..c
    }
}

/// Whether every value this tick's `update` computes or stores is
/// representable as an `i64` fixed-point number.
pub open spec fn ctrl_update_fits(c: CtrlModel, setpoint: int, actual: int) -> bool {
    &&& fits_i64(ctrl_error(setpoint, actual))
    &&& fits_i64(ctrl_integral_next(c, setpoint, actual))
    &&& fits_i64(ctrl_derivative(c, setpoint, actual))
    &&& fits_i64(ctrl_raw_output(c, setpoint, actual))
    &&& fits_i64(ctrl_output(c, setpoint, actual))
}

/// A PID feedback controller over fixed-point numbers.
pub struct PIDController {
    /// Proportional gain.
    pub kp: i64,
    /// Integral gain.
    pub ki: i64,
    /// Derivative gain.
    pub kd: i64,
    /// Time step, strictly positive.
    pub dt: i64,
    /// Multiplier applied to the raw control-law output.
    pub output_multiplier: i64,
    /// Accumulated integral term.
    pub integral: i64,
    /// The previous tick's error.
    pub previous_error: i64,
}

impl View for PIDController {
    type V = CtrlModel;

    open spec fn view(&self) -> CtrlModel {
        CtrlModel {
            kp: self.kp as int,
            ki: self.ki as int,
            kd: self.kd as int,
            dt: self.dt as int,
            output_multiplier: self.output_multiplier as int,
            integral: self.integral as int,
            previous_error: self.previous_error as int,
        }
    }
}

impl PIDController {
    /// Constructs a controller with the given tuning; the integral term and
    /// the previous error start at zero.
    pub fn new(kp: i64, ki: i64, kd: i64, dt: i64, output_multiplier: i64) -> (c: PIDController)
        requires
            dt > 0,
        ensures
            c@ == (CtrlModel {
                kp: kp as int,
                ki: ki as int,
                kd: kd as int,
                dt: dt as int,
                output_multiplier: output_multiplier as int,
                integral: 0,
                previous_error: 0,
            }),
            ctrl_wf(c@),
    {
        PIDController { kp, ki, kd, dt, output_multiplier, integral: 0, previous_error: 0 }
    }

    /// One tick of the control law: accumulates the error into the integral
    /// term, estimates the derivative, advances the stored previous error,
    /// and returns the scaled weighted sum of the three terms.
    pub fn update(&mut self, setpoint: i64, actual: i64) -> (output: i64)
        requires
            ctrl_wf(old(self)@),
            ctrl_update_fits(old(self)@, setpoint as int, actual as int),
        ensures
            final(self)@ == ctrl_step(old(self)@, setpoint as int, actual as int),
            output as int == ctrl_output(old(self)@, setpoint as int, actual as int),
    {
        let output: i64 = match self.checked_output(setpoint, actual) {
            Some(output) => output,
            None => {
                proof {
                    assert(false);
                }
                0
            },
        };
        let error: i128 = (setpoint as i128) - (actual as i128);
        proof {
            lemma_mul_bounds(
                error as int,
                self.dt as int,
                0xFFFF_FFFF_FFFF_FFFF,
                0x8000_0000_0000_0000,
            );
        }
        let integral_next: i128 = (self.integral as i128) + tdiv128(
            error * (self.dt as i128),
            SCALE as i128,
        );
        self.integral = integral_next as i64;
        self.previous_error = error as i64;
        output
    }

    /// The command this state would produce for these inputs, without
    /// mutating anything, or `None` when some value of the tick would fall
    /// outside the `i64` fixed-point range.
    pub fn checked_output(&self, setpoint: i64, actual: i64) -> (r: Option<i64>)
        requires
            ctrl_wf(self@),
        ensures
            r is Some <==> ctrl_update_fits(self@, setpoint as int, actual as int),
            r is Some ==> r->Some_0 as int == ctrl_output(self@, setpoint as int, actual as int),
    {
        let error: i128 = (setpoint as i128) - (actual as i128);
        proof {
            lemma_mul_bounds(
                error as int,
                self.dt as int,
                0xFFFF_FFFF_FFFF_FFFF,
                0x8000_0000_0000_0000,
            );
        }
        let p_integral: i128 = error * (self.dt as i128);
        proof {
            lemma_tdiv_magnitude(
                p_integral as int,
                SCALE as int,
                0xFFFF_FFFF_FFFF_FFFFint * 0x8000_0000_0000_0000int,
            );
        }
        let integral_next: i128 = (self.integral as i128) + tdiv128(p_integral, SCALE as i128);
        let diff: i128 = error - (self.previous_error as i128);
        proof {
            lemma_mul_bounds(diff as int, SCALE as int, 0x1_8000_0000_0000_0000, 0xF4240);
        }
        let derivative: i128 = tdiv128(diff * (SCALE as i128), self.dt as i128);
        if !fits_in_i64(error) || !fits_in_i64(integral_next) || !fits_in_i64(derivative) {
            return None;
        }
        proof {
            lemma_mul_bounds(
                self.kp as int,
                error as int,
                0x8000_0000_0000_0000,
                0xFFFF_FFFF_FFFF_FFFF,
            );
            lemma_mul_bounds(
                self.ki as int,
                integral_next as int,
                0x8000_0000_0000_0000,
                0x8000_0000_0000_0000,
            );
            lemma_mul_bounds(
                self.kd as int,
                derivative as int,
                0x8000_0000_0000_0000,
                0x8000_0000_0000_0000,
            );
        }
        let p1: i128 = (self.kp as i128) * error;
        let p2: i128 = (self.ki as i128) * integral_next;
        let p3: i128 = (self.kd as i128) * derivative;
        proof {
            lemma_tdiv_magnitude(
                p1 as int,
                SCALE as int,
                0xFFFF_FFFF_FFFF_FFFFint * 0x8000_0000_0000_0000int,
            );
            lemma_tdiv_magnitude(
                p2 as int,
                SCALE as int,
                0x8000_0000_0000_0000int * 0x8000_0000_0000_0000int,
            );
            lemma_tdiv_magnitude(
                p3 as int,
                SCALE as int,
                0x8000_0000_0000_0000int * 0x8000_0000_0000_0000int,
            );
        }
        let raw: i128 = tdiv128(p1, SCALE as i128) + tdiv128(p2, SCALE as i128) + tdiv128(
            p3,
            SCALE as i128,
        );
        if !fits_in_i64(raw) {
            return None;
        }
        proof {
            lemma_mul_bounds(
                self.output_multiplier as int,
                raw as int,
                0x8000_0000_0000_0000,
                0x8000_0000_0000_0000,
            );
        }
        let p_out: i128 = (self.output_multiplier as i128) * raw;
        let output: i128 = tdiv128(p_out, SCALE as i128);
        if !fits_in_i64(output) {
            return None;
        }
        Some(output as i64)
    }
}

/// The controller state after a sequence of updates in which every call's
/// measured value equals its target.
pub open spec fn ctrl_iter_matched(c: CtrlModel, xs: Seq<int>) -> CtrlModel
    decreases xs.len(),
{
    if xs.len() == 0 {
        c
    } else {
        ctrl_iter_matched(ctrl_step(c, xs[0], xs[0]), xs.drop_first())
    }
}

/// Whether every output along a sequence of updates with matched inputs is
/// zero.
pub open spec fn ctrl_outputs_zero_matched(c: CtrlModel, xs: Seq<int>) -> bool
    decreases xs.len(),
{
    xs.len() == 0 || (ctrl_output(c, xs[0], xs[0]) == 0 && ctrl_outputs_zero_matched(
        ctrl_step(c, xs[0], xs[0]),
        xs.drop_first(),
    ))
}

/// When the measured value equals the target, the error is zero: the
/// proportional and derivative terms vanish, the integral term keeps its
/// accumulated value, and the output is zero as long as that accumulated
/// value is zero.
pub proof fn lemma_matched_inputs_one_step(c: CtrlModel, x: int)
    requires
        ctrl_wf(c),
        c.integral == 0,
        c.previous_error == 0,
    ensures
        ctrl_output(c, x, x) == 0,
        ctrl_step(c, x, x).integral == 0,
        ctrl_step(c, x, x).previous_error == 0,
{
    broadcast use vstd::arithmetic::div_mod::lemma_div_basics_1;

    lemma_fmul_zero(c.dt);
    assert(ctrl_integral_next(c, x, x) == 0);
    assert(ctrl_derivative(c, x, x) == tdiv(0, c.dt));
    assert(tdiv(0, c.dt) == 0);
    lemma_fmul_zero(c.kp);
    lemma_fmul_zero(c.ki);
    lemma_fmul_zero(c.kd);
    assert(ctrl_raw_output(c, x, x) == 0);
    lemma_fmul_zero(c.output_multiplier);
}

/// From a freshly constructed controller, every update whose measured value
/// matches its target returns zero, however long the run: the zero error
/// leaves the (zero) integral term untouched, so nothing ever accumulates.
pub proof fn lemma_matched_inputs_outputs_zero(c: CtrlModel, xs: Seq<int>)
    requires
        ctrl_wf(c),
        c.integral == 0,
        c.previous_error == 0,
    ensures
        ctrl_outputs_zero_matched(c, xs),
        ctrl_iter_matched(c, xs).integral == 0,
        ctrl_iter_matched(c, xs).previous_error == 0,
    decreases xs.len(),
{
    if xs.len() > 0 {
        lemma_matched_inputs_one_step(c, xs[0]);
        lemma_matched_inputs_outputs_zero(ctrl_step(c, xs[0], xs[0]), xs.drop_first());
    }
}

/// With all three gains zero, the output is zero regardless of the inputs
/// and of whatever the integral term has accumulated.
pub proof fn lemma_zero_gains_output_zero(c: CtrlModel, setpoint: int, actual: int)
    requires
        c.kp == 0,
        c.ki == 0,
        c.kd == 0,
    ensures
        ctrl_output(c, setpoint, actual) == 0,
{
    lemma_fmul_zero(ctrl_error(setpoint, actual));
    lemma_fmul_zero(ctrl_integral_next(c, setpoint, actual));
    lemma_fmul_zero(ctrl_derivative(c, setpoint, actual));
    lemma_fmul_zero(c.output_multiplier);
}

} // verus!
