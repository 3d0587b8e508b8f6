use pid_sim::controller::PIDController;
use pid_sim::sim::{
    GAIN_DERIVATIVE, GAIN_INTEGRAL, GAIN_PROPORTIONAL, OUTPUT_SCALE, SETPOINT, TICK_DURATION,
};

fn reference_controller() -> PIDController {
    PIDController::new(GAIN_PROPORTIONAL, GAIN_INTEGRAL, GAIN_DERIVATIVE, TICK_DURATION, OUTPUT_SCALE)
}

#[test]
fn new_starts_at_rest() {
    let c = reference_controller();
    assert_eq!(c.kp, GAIN_PROPORTIONAL);
    assert_eq!(c.ki, GAIN_INTEGRAL);
    assert_eq!(c.kd, GAIN_DERIVATIVE);
    assert_eq!(c.dt, TICK_DURATION);
    assert_eq!(c.output_multiplier, OUTPUT_SCALE);
    assert_eq!(c.integral, 0);
    assert_eq!(c.previous_error, 0);
}

#[test]
fn first_update_reference_values() {
    // Error 100: proportional 1, integral term 1/100, derivative term 60,
    // so the command is 61 + 1/100 units.
    let mut c = reference_controller();
    let out: i64 = c.update(SETPOINT, 0);
    assert_eq!(out, 61_010_000);
    assert_eq!(c.integral, 100_000_000);
    assert_eq!(c.previous_error, 100_000_000);
}

#[test]
fn second_update_reference_values() {
    let mut c = reference_controller();
    let first: i64 = c.update(SETPOINT, 0);
    let second: i64 = c.update(SETPOINT, first);
    assert_eq!(second, -36_202_201);
    assert_eq!(c.integral, 138_990_000);
    assert_eq!(c.previous_error, 38_990_000);
}

#[test]
fn matched_inputs_keep_output_zero() {
    // Measured value equal to the target on every call: zero error, so the
    // command stays zero and nothing accumulates, however long the run.
    let mut c = reference_controller();
    let inputs: [i64; 7] = [0, 100_000_000, -3_500_000, 42, i64::MAX / 4, i64::MIN / 4, 1];
    for &x in inputs.iter() {
        assert_eq!(c.update(x, x), 0);
        assert_eq!(c.integral, 0);
        assert_eq!(c.previous_error, 0);
    }
}

#[test]
fn zero_gains_give_zero_output() {
    let mut c = PIDController::new(0, 0, 0, TICK_DURATION, OUTPUT_SCALE);
    assert_eq!(c.update(SETPOINT, 0), 0);
    assert_eq!(c.update(-7_250_000, 93_000_000), 0);
    assert_eq!(c.update(50_000_000_000, -50_000_000_000), 0);
    // The integral term still accumulates, it just never reaches the output.
    assert_ne!(c.integral, 0);
}

#[test]
fn truncating_rounding_toward_zero() {
    // A proportional gain of one fixed-point unit scales the error by
    // 1/1000000; the scaled value -3/2 truncates to -1, not to -2.
    let mut c = PIDController::new(1, 0, 0, TICK_DURATION, OUTPUT_SCALE);
    let out: i64 = c.update(0, 1_500_000);
    assert_eq!(out, -1);
}

#[test]
fn checked_output_none_when_integral_would_overflow() {
    let mut c = reference_controller();
    c.integral = i64::MAX;
    assert_eq!(c.checked_output(SETPOINT, 0), None);
}

#[test]
fn checked_output_matches_update() {
    let mut c = reference_controller();
    let previewed: Option<i64> = c.checked_output(SETPOINT, 0);
    let out: i64 = c.update(SETPOINT, 0);
    assert_eq!(previewed, Some(out));
}
