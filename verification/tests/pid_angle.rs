//! Tests for the single-axis PID engine and the angle-mode compute strategy.

use free_flight_stabilization::AngleControlData;
use free_flight_stabilization::ComputeStrategy;
use free_flight_stabilization::PidController;
use free_flight_stabilization::compute_angle;

/// Test that the integral term is clamped to the specified limit.
#[test]
fn test_pid_angle_integral_clamping() {
    let mut pid: PidController<i64> = PidController::new();
    pid.compute_fn(ComputeStrategy::Angle).set_point(50).kp(1).ki(5).kd(0);
    let data = AngleControlData {
        measurement: 0,
        rate: 0,
        dt: 1,
        integral_limit: 100, // Integral should not exceed this value.
        reset_integral: false,
    };

    // This would normally push integral way over 100 if not clamped
    for _ in 0..10 {
        let _ = pid.compute(data);
    }

    let (_, integral, _) = compute_angle(&pid, data);
    assert_eq!(100, integral, "Integral should be clamped to 100.");
}

/// Test the behavior when the reset_integral flag is true.
#[test]
fn test_pid_angle_integral_reset() {
    let mut pid: PidController<i64> = PidController::new();
    pid.compute_fn(ComputeStrategy::Angle).set_point(10).kp(1).ki(1).kd(0);
    let data = AngleControlData {
        measurement: 0,
        rate: 0,
        dt: 1,
        integral_limit: 100,
        reset_integral: false,
    };

    // First compute without reset to build up the integral.
    let (_, integral_first, _) = compute_angle(&pid, data);
    let _ = pid.compute(data);

    // Now compute with reset.
    let data_reset = AngleControlData { reset_integral: true, ..data };
    let (_, integral_reset, _) = compute_angle(&pid, data_reset);
    let _ = pid.compute(data);

    assert_eq!(integral_first, 10, "Integral before reset should accumulate.");
    assert_eq!(integral_reset, 0, "Integral after reset should be zero.");
}

/// Test PID response with non-zero set point and zero measurement.
#[test]
fn test_pid_angle_response() {
    let mut pid: PidController<i64> = PidController::new();
    pid.compute_fn(ComputeStrategy::Angle).set_point(10).kp(1).ki(1).kd(0);
    let data = AngleControlData {
        measurement: 0,
        rate: 0,
        dt: 1,
        integral_limit: 100,
        reset_integral: false,
    };

    let (error, integral, derivative) = compute_angle(&pid, data);
    let output = pid.compute(data);

    assert_eq!(10, error, "Error should be 10.");
    assert_eq!(10, integral, "Integral should start to accumulate.");
    assert_eq!(0, derivative, "Derivative should be zero.");
    assert_eq!(20, output, "Output should be the sum of terms.");

    // Call again to test accumulation
    let (_, integral_second, _) = compute_angle(&pid, data);
    let _ = pid.compute(data);
    assert_eq!(20, integral_second, "Integral should accumulate to 20.");
}

/// Test PID specific response with non-zero values.
#[test]
fn test_pid_angle_specific_output() {
    let mut pid: PidController<i64> = PidController::new();
    pid.compute_fn(ComputeStrategy::Angle).set_point(10).kp(1).ki(1).kd(1);
    let data = AngleControlData {
        measurement: 5,
        rate: 7,
        dt: 1,
        integral_limit: 100,
        reset_integral: false,
    };

    let (error, integral, derivative) = compute_angle(&pid, data);
    let output = pid.compute(data);

    assert_eq!(5, error, "Error should be 5.");
    assert_eq!(5, integral, "Integral should start to accumulate.");
    assert_eq!(7, derivative, "Derivative should 7.");
    assert_eq!(17, output, "Output should be the sum of terms.");

    // Call again to test accumulation
    let (_, integral_second, _) = compute_angle(&pid, data);
    let _ = pid.compute(data);
    assert_eq!(10, integral_second, "Integral should accumulate to 20.");
}

/// Test that PID computes zero output for zero error with zero initial conditions.
#[test]
fn test_pid_angle_zero_conditions() {
    let mut pid: PidController<i64> = PidController::new();
    pid.compute_fn(ComputeStrategy::Angle).set_point(0).kp(1).ki(0).kd(0);
    let data = AngleControlData {
        measurement: 0,
        rate: 0,
        dt: 1,
        integral_limit: 10,
        reset_integral: false,
    };
    let (error, integral, derivative) = compute_angle(&pid, data);
    let output = pid.compute(data);

    assert_eq!(0, error, "Error should be zero.");
    assert_eq!(0, integral, "Integral should be zero.");
    assert_eq!(0, derivative, "Derivative should be zero.");
    assert_eq!(0, output, "Output should be zero.");
}

/// A fresh engine carries the identity-like defaults.
#[test]
fn test_pid_new_defaults() {
    let pid: PidController<i64> = PidController::new();
    assert_eq!(pid.set_point, 0);
    assert_eq!(pid.kp, 1);
    assert_eq!(pid.ki, 0);
    assert_eq!(pid.kd, 0);
    assert_eq!(pid.integral, 0);
    assert_eq!(pid.strategy, ComputeStrategy::Angle);
}

/// The integral term also clamps at the negative limit.
#[test]
fn test_pid_angle_negative_clamping() {
    let mut pid: PidController<i64> = PidController::new();
    pid.compute_fn(ComputeStrategy::Angle).set_point(-200).kp(1).ki(1).kd(0);
    let data = AngleControlData {
        measurement: 0,
        rate: 0,
        dt: 1,
        integral_limit: 100,
        reset_integral: false,
    };
    let (error, integral, _) = compute_angle(&pid, data);
    assert_eq!(-200, error);
    assert_eq!(-100, integral, "Integral should be clamped to -100.");
}

/// The compute strategy is pure: two computations on the same engine state
/// and the same data yield identical terms.
#[test]
fn test_pid_angle_strategy_is_pure() {
    let mut pid: PidController<i64> = PidController::new();
    pid.compute_fn(ComputeStrategy::Angle).set_point(10).kp(2).ki(3).kd(1);
    let data = AngleControlData {
        measurement: 4,
        rate: 9,
        dt: 2,
        integral_limit: 50,
        reset_integral: false,
    };
    let first = compute_angle(&pid, data);
    let second = compute_angle(&pid, data);
    assert_eq!(first, second, "Strategy results should be identical.");
    assert_eq!(pid.integral, 0, "Strategy alone should not advance the engine.");
}

/// Accumulation law on concrete values: after three ticks with constant
/// error and dt and no clamp activation, the persisted integral is
/// 3 * error * dt.
#[test]
fn test_pid_angle_accumulation_law() {
    let mut pid: PidController<i64> = PidController::new();
    pid.compute_fn(ComputeStrategy::Angle).set_point(10).kp(1).ki(1).kd(0);
    let data = AngleControlData {
        measurement: 0,
        rate: 0,
        dt: 2,
        integral_limit: 100,
        reset_integral: false,
    };
    for _ in 0..3 {
        let _ = pid.compute(data);
    }
    assert_eq!(pid.integral, 60, "Integral should be 3 * error * dt.");
}

/// After a reset tick, accumulation resumes from zero, not from the
/// pre-reset value.
#[test]
fn test_pid_angle_reset_then_resume() {
    let mut pid: PidController<i64> = PidController::new();
    pid.compute_fn(ComputeStrategy::Angle).set_point(10).kp(1).ki(1).kd(0);
    let data = AngleControlData {
        measurement: 0,
        rate: 0,
        dt: 1,
        integral_limit: 100,
        reset_integral: false,
    };
    let _ = pid.compute(data);
    let _ = pid.compute(data);
    assert_eq!(pid.integral, 20, "Integral should accumulate before the reset.");

    let data_reset = AngleControlData { reset_integral: true, ..data };
    let _ = pid.compute(data_reset);
    assert_eq!(pid.integral, 0, "A reset tick should zero the persisted integral.");

    let _ = pid.compute(data);
    assert_eq!(pid.integral, 10, "Accumulation should resume from zero.");
}

/// The same control logic serves another scalar representation.
#[test]
fn test_pid_angle_other_representation() {
    let mut pid: PidController<i32> = PidController::new();
    pid.compute_fn(ComputeStrategy::Angle).set_point(10).kp(1).ki(1).kd(0);
    let data = AngleControlData {
        measurement: 0,
        rate: 0,
        dt: 1,
        integral_limit: 100,
        reset_integral: false,
    };
    assert_eq!(pid.compute(data), 20, "First tick output should be 20.");
    assert_eq!(pid.compute(data), 30, "Second tick output should accumulate to 30.");
}

/// A zero time delta yields no integral growth this tick.
#[test]
fn test_pid_angle_zero_dt() {
    let mut pid: PidController<i64> = PidController::new();
    pid.compute_fn(ComputeStrategy::Angle).set_point(10).kp(1).ki(1).kd(0);
    let data = AngleControlData {
        measurement: 0,
        rate: 0,
        dt: 0,
        integral_limit: 100,
        reset_integral: false,
    };
    let (_, integral, _) = compute_angle(&pid, data);
    assert_eq!(0, integral, "Zero dt should add nothing to the integral.");
}

/// A zero integral limit forces the integral term to collapse to zero.
#[test]
fn test_pid_angle_zero_integral_limit() {
    let mut pid: PidController<i64> = PidController::new();
    pid.compute_fn(ComputeStrategy::Angle).set_point(10).kp(1).ki(1).kd(0);
    let data = AngleControlData {
        measurement: 0,
        rate: 0,
        dt: 1,
        integral_limit: 0,
        reset_integral: false,
    };
    let (_, integral, _) = compute_angle(&pid, data);
    assert_eq!(0, integral, "A zero limit should collapse the integral.");
}
