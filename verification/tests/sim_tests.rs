use pid_sim::sim::{
    is_divergent, is_qualifying, reference_config, SimConfig, Simulation, Status, TickReport,
    SETPOINT, TICK_BUDGET,
};

fn zero_gain_config(setpoint: i64, budget: u64) -> SimConfig {
    SimConfig {
        gain_proportional: 0,
        gain_integral: 0,
        gain_derivative: 0,
        tick_duration: 1_000_000,
        output_scale: 1_000_000,
        setpoint,
        budget,
    }
}

#[test]
fn new_initial_state() {
    let s = Simulation::new(reference_config());
    assert!(matches!(s.status, Status::Running));
    assert_eq!(s.tick_index, 0);
    assert_eq!(s.streak, 0);
    assert_eq!(s.process.location, 0);
    assert_eq!(s.setpoint, SETPOINT);
    assert_eq!(s.budget, TICK_BUDGET);
}

#[test]
fn first_tick_reference_values() {
    let mut s = Simulation::new(reference_config());
    let report: Option<TickReport> = s.tick();
    assert_eq!(
        report,
        Some(TickReport { tick_index: 0, throttle: 61_010_000, location: 61_010_000 })
    );
    assert!(matches!(s.status, Status::Running));
    assert_eq!(s.tick_index, 1);
}

#[test]
fn qualifying_band_empty_for_positive_setpoint() {
    // For a positive setpoint the two strict inequalities of the band
    // exclude each other, so no location qualifies, the setpoint itself
    // included.
    assert!(!is_qualifying(SETPOINT, SETPOINT));
    assert!(!is_qualifying(95_000_000, SETPOINT));
    assert!(!is_qualifying(105_000_000, SETPOINT));
}

#[test]
fn qualifying_band_for_negative_setpoint() {
    // For a negative setpoint the band is locations within roughly ten
    // percent of the setpoint.
    assert!(is_qualifying(-95_000_000, -100_000_000));
    assert!(is_qualifying(-100_000_000, -100_000_000));
    assert!(!is_qualifying(-50_000_000, -100_000_000));
    assert!(!is_qualifying(-150_000_000, -100_000_000));
}

#[test]
fn divergence_threshold_is_strict() {
    // Setpoint 100 units: a location of 10001 units diverges, 9999 and the
    // exact threshold 10000 do not.
    assert!(is_divergent(10_001_000_000, SETPOINT));
    assert!(is_divergent(-10_001_000_000, SETPOINT));
    assert!(!is_divergent(9_999_000_000, SETPOINT));
    assert!(!is_divergent(10_000_000_000, SETPOINT));
}

#[test]
fn tick_diverges_past_hundredfold_setpoint() {
    // Zero gains hold the plant still, so the preset location is the one
    // the divergence check sees.
    let mut s = Simulation::new(zero_gain_config(SETPOINT, 10_000));
    s.process.location = 10_001_000_000;
    assert!(s.tick().is_some());
    assert!(matches!(s.status, Status::Diverged));
}

#[test]
fn tick_keeps_running_below_divergence_threshold() {
    let mut s = Simulation::new(zero_gain_config(SETPOINT, 10_000));
    s.process.location = 9_999_000_000;
    assert!(s.tick().is_some());
    assert!(matches!(s.status, Status::Running));
}

#[test]
fn eleventh_qualifying_tick_converges() {
    // Zero gains hold the plant still inside the band; a streak of ten
    // extended by one more qualifying tick converges, and convergence takes
    // priority over the divergence check.
    let mut s = Simulation::new(zero_gain_config(-100_000_000, 10_000));
    s.process.location = -95_000_000;
    s.tick_index = 10;
    s.streak = 10;
    assert!(s.tick().is_some());
    assert!(matches!(s.status, Status::Converged));
    assert_eq!(s.streak, 11);
}

#[test]
fn ten_qualifying_ticks_do_not_converge() {
    let mut s = Simulation::new(zero_gain_config(-100_000_000, 10_000));
    s.process.location = -95_000_000;
    s.tick_index = 9;
    s.streak = 9;
    assert!(s.tick().is_some());
    assert_eq!(s.streak, 10);
    assert!(!matches!(s.status, Status::Converged));
}

#[test]
fn disqualifying_tick_resets_streak() {
    // Ten qualifying ticks followed by a disqualifying one: the streak
    // resets to zero and the run does not converge.
    let mut s = Simulation::new(zero_gain_config(-100_000_000, 10_000));
    s.process.location = -50_000_000;
    s.tick_index = 10;
    s.streak = 10;
    assert!(s.tick().is_some());
    assert_eq!(s.streak, 0);
    assert!(!matches!(s.status, Status::Converged));
}

#[test]
fn run_exhausts_small_budget() {
    // Zero gains and a plant at rest far from a positive setpoint: nothing
    // ever qualifies or diverges, so the budget runs out.
    let mut s = Simulation::new(zero_gain_config(SETPOINT, 3));
    assert_eq!(s.run(), Some(Status::Exhausted));
    assert_eq!(s.tick_index, 3);
}

#[test]
fn end_to_end_reference_run_terminates_within_budget() {
    // The reference tuning overshoots: the loop oscillates with growing
    // amplitude until the location escapes a hundred times the setpoint,
    // well before the budget runs out.
    let mut s = Simulation::new(reference_config());
    let outcome: Option<Status> = s.run();
    assert_eq!(outcome, Some(Status::Diverged));
    assert!(s.tick_index <= TICK_BUDGET);
    assert_eq!(s.tick_index, 546);
    assert_eq!(s.process.location, 10_480_506_358);
}

#[test]
fn identical_runs_follow_identical_trajectories() {
    let mut a = Simulation::new(reference_config());
    let mut b = Simulation::new(reference_config());
    let mut guard: u64 = 0;
    while matches!(a.status, Status::Running) && a.tick_index < a.budget {
        let ra: Option<TickReport> = a.tick();
        let rb: Option<TickReport> = b.tick();
        assert_eq!(ra, rb);
        assert_eq!(a.status, b.status);
        assert_eq!(a.streak, b.streak);
        assert!(ra.is_some());
        guard += 1;
        assert!(guard <= TICK_BUDGET);
    }
    assert_eq!(a.status, b.status);
    assert!(matches!(a.status, Status::Diverged));
}

#[test]
fn tick_out_of_range_returns_none_and_keeps_state() {
    let mut s = Simulation::new(reference_config());
    s.controller.integral = i64::MAX;
    assert_eq!(s.tick(), None);
    assert!(matches!(s.status, Status::Running));
    assert_eq!(s.tick_index, 0);
    assert_eq!(s.controller.integral, i64::MAX);
}

#[test]
fn run_out_of_range_returns_none() {
    let mut s = Simulation::new(reference_config());
    s.controller.integral = i64::MAX;
    assert_eq!(s.run(), None);
    assert!(matches!(s.status, Status::Running));
}
