//! The shared interface for PID flight stabilizers, their configuration
//! structures, and the stabilizer implementations that compose per-axis
//! engines into one control step.

use vstd::prelude::*;

use crate::numeric::Number;
use crate::numeric::spec_clamp;
use crate::pid::AngleControlData;
use crate::pid::ComputeStrategy;
use crate::pid::PidController;

verus! {

/// Configuration for PID gains and other settings: nine gains (kp/ki/kd per
/// axis), three initial setpoints, one shared integral limit, and one output
/// scale factor.  An immutable snapshot consumed to construct a stabilizer.
#[derive(Debug, Clone, Copy, PartialEq)]
pub struct FlightStabilizerConfig<T> {
    /// Proportional gain for roll control.
    pub kp_roll: T,
    /// Integral gain for roll control.
    pub ki_roll: T,
    /// Derivative gain for roll control.
    pub kd_roll: T,
    /// Proportional gain for pitch control.
    pub kp_pitch: T,
    /// Integral gain for pitch control.
    pub ki_pitch: T,
    /// Derivative gain for pitch control.
    pub kd_pitch: T,
    /// Proportional gain for yaw control.
    pub kp_yaw: T,
    /// Integral gain for yaw control.
    pub ki_yaw: T,
    /// Derivative gain for yaw control.
    pub kd_yaw: T,
    /// Initial setpoint for roll angle.
    pub set_point_roll: T,
    /// Initial setpoint for pitch angle.
    pub set_point_pitch: T,
    /// Initial setpoint for yaw angle.
    pub set_point_yaw: T,
    /// Upper limit for the integral term, to prevent integral windup.
    pub i_limit: T,
    /// Scale factor applied to PID output to match actuator range.
    pub scale: T,
}

impl<T: Number> FlightStabilizerConfig<T> {
    /// Whether the configuration carries the identity-like defaults:
    /// proportional gains of one, all other gains and setpoints of zero,
    /// and an integral limit and scale of one.
    pub open spec fn is_identity(self) -> bool {
        &&& self.kp_roll.v() == 1
        &&& self.ki_roll.v() == 0
        &&& self.kd_roll.v() == 0
        &&& self.kp_pitch.v() == 1
        &&& self.ki_pitch.v() == 0
        &&& self.kd_pitch.v() == 0
        &&& self.kp_yaw.v() == 1
        &&& self.ki_yaw.v() == 0
        &&& self.kd_yaw.v() == 0
        &&& self.set_point_roll.v() == 0
        &&& self.set_point_pitch.v() == 0
        &&& self.set_point_yaw.v() == 0
        &&& self.i_limit.v() == 1
        &&& self.scale.v() == 1
    }

    /// Creates a new configuration with default values of zero or one for
    /// all parameters.  These should be replaced with meaningful values
    /// tuned for the hardware.
    pub fn new() -> (r: Self)
        ensures
            r.is_identity(),
    {
        FlightStabilizerConfig {
            kp_roll: T::one(),
            ki_roll: T::zero(),
            kd_roll: T::zero(),
            kp_pitch: T::one(),
            ki_pitch: T::zero(),
            kd_pitch: T::zero(),
            kp_yaw: T::one(),
            ki_yaw: T::zero(),
            kd_yaw: T::zero(),
            set_point_roll: T::zero(),
            set_point_pitch: T::zero(),
            set_point_yaw: T::zero(),
            i_limit: T::one(),
            scale: T::one(),
        }
    }
}

impl<T: Number> Default for FlightStabilizerConfig<T> {
    /// The identity-like default configuration, as [`FlightStabilizerConfig::new`]
    /// builds it.
    fn default() -> (r: Self)
        ensures
            r.is_identity(),
    {
        Self::new()
    }
}

/// Configuration for PID cascade blending: an ordered sequence of blending
/// weights, one per blended stage, a scalar pre-blend gain, and a saturation
/// bound applied to the pre-blend scaled value.  The weights are
/// dimensionless and not required to sum to one; callers tune them.
#[derive(Debug, Clone, Copy, PartialEq)]
pub struct CascadeBlendingConfig<T, const N: usize> {
    /// Blending weight per stage.
    pub beta: [T; N],
    /// Pre-blend gain.
    pub k: T,
    /// Pre-blend scaling limit.
    pub limit: T,
}

impl<T: Number, const N: usize> CascadeBlendingConfig<T, N> {
    /// Creates a new configuration with default values of one for all
    /// blending parameters.  These should be replaced with meaningful values
    /// tuned for the hardware.
    pub fn new() -> (r: Self)
        ensures
            forall|j: int| 0 <= j < N ==> (#[trigger] r.beta[j]).v() == 1,
            r.k.v() == 1,
            r.limit.v() == 1,
    {
        CascadeBlendingConfig { beta: [T::one(); N], k: T::one(), limit: T::one() }
    }

    /// The saturated pre-blend value: the outer-loop output, scaled by the
    /// pre-blend gain and clamped within the saturation bound.
    pub open spec fn spec_pre(self, outer: int) -> int {
        spec_clamp(self.k.v() * outer, -self.limit.v(), self.limit.v())
    }
}

impl<T: Number, const N: usize> Default for CascadeBlendingConfig<T, N> {
    /// The all-ones default configuration, as [`CascadeBlendingConfig::new`]
    /// builds it.
    fn default() -> (r: Self)
        ensures
            forall|j: int| 0 <= j < N ==> (#[trigger] r.beta[j]).v() == 1,
            r.k.v() == 1,
            r.limit.v() == 1,
    {
        Self::new()
    }
}

impl<T: Number> CascadeBlendingConfig<T, 2> {
    /// The blended axis command: the first weight times the saturated
    /// pre-blend value, plus the second weight times the inner-loop output.
    pub open spec fn spec_blend(self, outer: int, inner: int) -> int {
        self.beta[0].v() * self.spec_pre(outer) + self.beta[1].v() * inner
    }

    /// What a blend asks: a non-negative saturation bound (a negative one
    /// has no defined clamp), and every intermediate value representable.
    pub open spec fn blend_req(self, outer: int, inner: int) -> bool {
        &&& self.limit.v() >= 0
        &&& T::in_range(self.k.v() * outer)
        &&& T::in_range(-self.limit.v())
        &&& T::in_range(self.beta[0].v() * self.spec_pre(outer))
        &&& T::in_range(self.beta[1].v() * inner)
        &&& T::in_range(self.spec_blend(outer, inner))
    }

    /// Combines an outer-loop output and an inner-loop output into a single
    /// axis command: saturates the gain-scaled outer output, then forms the
    /// weighted sum with the inner output.
    pub fn blend(&self, outer: T, inner: T) -> (r: T)
        requires
            self.blend_req(outer.v(), inner.v()),
        ensures
            r.v() == self.spec_blend(outer.v(), inner.v()),
    {
        let pre = self.k.mul(outer).clamp(self.limit.neg(), self.limit);
        self.beta[0].mul(pre).add(self.beta[1].mul(inner))
    }
}

/// A trait for PID-based flight stabilizers that handle roll, pitch, and yaw
/// control based on attitude and gyro data and `dt`.
///
/// The two spec functions let every implementor publish an exact contract:
/// `control_req` says which control steps the implementor admits (typically
/// that every intermediate value stays representable), and `control_ensures`
/// relates the stabilizer state after a step, and the returned outputs, to
/// the state and inputs before it.
pub trait FlightStabilizer<T: Number>: Sized {
    /// Which control steps this stabilizer admits, from its current state
    /// and the step's inputs.
    spec fn control_req(
        self,
        set_point: (T, T, T),
        imu_attitude: (T, T, T),
        gyro_rate: (T, T, T),
        dt: T,
        low_throttle: bool,
    ) -> bool;

    /// How a control step's poststate and outputs relate to its prestate and
    /// inputs.
    spec fn control_ensures(
        pre: Self,
        post: Self,
        set_point: (T, T, T),
        imu_attitude: (T, T, T),
        gyro_rate: (T, T, T),
        dt: T,
        low_throttle: bool,
        out: (T, T, T),
    ) -> bool;

    /// Takes desired setpoints, current IMU attitude, and gyro rates, then
    /// computes the control outputs.
    ///
    /// - `set_point`: a tuple of (roll, pitch, yaw) desired setpoints.
    /// - `imu_attitude`: a tuple of (roll, pitch, yaw) current IMU measurements.
    /// - `gyro_rate`: a tuple of (roll rate, pitch rate, yaw rate) from the gyroscope.
    /// - `dt`: time delta since the last update.
    /// - `low_throttle`: flag indicating if the throttle is low, used for
    ///   anti-integral-windup.
    ///
    /// Returns a tuple of (roll control, pitch control, yaw control) outputs
    /// scaled for actuation.
    fn control(
        &mut self,
        set_point: (T, T, T),
        imu_attitude: (T, T, T),
        gyro_rate: (T, T, T),
        dt: T,
        low_throttle: bool,
    ) -> (out: (T, T, T))
        requires
            old(self).control_req(set_point, imu_attitude, gyro_rate, dt, low_throttle),
        ensures
            Self::control_ensures(
                *old(self),
                *final(self),
                set_point,
                imu_attitude,
                gyro_rate,
                dt,
                low_throttle,
                out,
            ),
    ;
}

/// The control data one axis of a stabilizer hands its engine on one tick:
/// the axis's attitude measurement and gyro rate, the shared time delta and
/// integral limit, and the level-triggered anti-windup reset while the
/// throttle is low.
pub open spec fn axis_data<T: Number>(
    measurement: T,
    rate: T,
    dt: T,
    integral_limit: T,
    low_throttle: bool,
) -> AngleControlData<T> {
    AngleControlData { measurement, rate, dt, integral_limit, reset_integral: low_throttle }
}

/// A flight stabilizer with one angle-mode PID engine per axis.  The three
/// axes are decoupled control loops sharing only the time delta and the
/// low-throttle signal; each output is scaled to the actuator range.
#[derive(Debug, Clone, Copy, PartialEq)]
pub struct AngleStabilizer<T> {
    /// The roll-axis engine.
    pub pid_roll: PidController<T>,
    /// The pitch-axis engine.
    pub pid_pitch: PidController<T>,
    /// The yaw-axis engine.
    pub pid_yaw: PidController<T>,
    /// The shared symmetric bound on each engine's integral term.
    pub i_limit: T,
    /// The scale factor mapping controller units to actuator units.
    pub scale: T,
}

impl<T: Number> AngleStabilizer<T> {
    /// The roll engine as it ticks: the persisted roll engine, steered at
    /// this step's roll setpoint.
    pub open spec fn roll_pid(self, set_point: (T, T, T)) -> PidController<T> {
        PidController { set_point: set_point.0, ..self.pid_roll }
    }

    /// The pitch engine as it ticks.
    pub open spec fn pitch_pid(self, set_point: (T, T, T)) -> PidController<T> {
        PidController { set_point: set_point.1, ..self.pid_pitch }
    }

    /// The yaw engine as it ticks.
    pub open spec fn yaw_pid(self, set_point: (T, T, T)) -> PidController<T> {
        PidController { set_point: set_point.2, ..self.pid_yaw }
    }

    /// Creates a stabilizer from a configuration snapshot: each per-axis
    /// engine takes its gains and initial setpoint from it, with a zero
    /// persisted integral, and the stabilizer keeps the shared integral
    /// limit and output scale.
    pub fn with_config(config: FlightStabilizerConfig<T>) -> (r: Self)
        ensures
            r.pid_roll == (PidController {
                set_point: config.set_point_roll,
                kp: config.kp_roll,
                ki: config.ki_roll,
                kd: config.kd_roll,
                integral: r.pid_roll.integral,
                strategy: ComputeStrategy::Angle,
            }),
            r.pid_pitch == (PidController {
                set_point: config.set_point_pitch,
                kp: config.kp_pitch,
                ki: config.ki_pitch,
                kd: config.kd_pitch,
                integral: r.pid_pitch.integral,
                strategy: ComputeStrategy::Angle,
            }),
            r.pid_yaw == (PidController {
                set_point: config.set_point_yaw,
                kp: config.kp_yaw,
                ki: config.ki_yaw,
                kd: config.kd_yaw,
                integral: r.pid_yaw.integral,
                strategy: ComputeStrategy::Angle,
            }),
            r.pid_roll.integral.v() == 0,
            r.pid_pitch.integral.v() == 0,
            r.pid_yaw.integral.v() == 0,
            r.i_limit == config.i_limit,
            r.scale == config.scale,
    {
        AngleStabilizer {
            pid_roll: PidController {
                set_point: config.set_point_roll,
                kp: config.kp_roll,
                ki: config.ki_roll,
                kd: config.kd_roll,
                integral: T::zero(),
                strategy: ComputeStrategy::Angle,
            },
            pid_pitch: PidController {
                set_point: config.set_point_pitch,
                kp: config.kp_pitch,
                ki: config.ki_pitch,
                kd: config.kd_pitch,
                integral: T::zero(),
                strategy: ComputeStrategy::Angle,
            },
            pid_yaw: PidController {
                set_point: config.set_point_yaw,
                kp: config.kp_yaw,
                ki: config.ki_yaw,
                kd: config.kd_yaw,
                integral: T::zero(),
                strategy: ComputeStrategy::Angle,
            },
            i_limit: config.i_limit,
            scale: config.scale,
        }
    }
}

impl<T: Number> FlightStabilizer<T> for AngleStabilizer<T> {
    /// A control step runs when each axis's engine tick stays representable
    /// and so does the scaling of each axis's output.
    open spec fn control_req(
        self,
        set_point: (T, T, T),
        imu_attitude: (T, T, T),
        gyro_rate: (T, T, T),
        dt: T,
        low_throttle: bool,
    ) -> bool {
        let rp = self.roll_pid(set_point);
        let pp = self.pitch_pid(set_point);
        let yp = self.yaw_pid(set_point);
        let rd = axis_data(imu_attitude.0, gyro_rate.0, dt, self.i_limit, low_throttle);
        let pd = axis_data(imu_attitude.1, gyro_rate.1, dt, self.i_limit, low_throttle);
        let yd = axis_data(imu_attitude.2, gyro_rate.2, dt, self.i_limit, low_throttle);
        &&& rp.tick_req(rd)
        &&& pp.tick_req(pd)
        &&& yp.tick_req(yd)
        &&& T::in_range(self.scale.v() * rp.spec_output(rd))
        &&& T::in_range(self.scale.v() * pp.spec_output(pd))
        &&& T::in_range(self.scale.v() * yp.spec_output(yd))
    }

    /// After a control step, each engine holds the step's setpoint and the
    /// integral its tick computed, with gains, strategy, integral limit, and
    /// scale unchanged, and each returned output is the scaled tick output
    /// of its axis.
    open spec fn control_ensures(
        pre: Self,
        post: Self,
        set_point: (T, T, T),
        imu_attitude: (T, T, T),
        gyro_rate: (T, T, T),
        dt: T,
        low_throttle: bool,
        out: (T, T, T),
    ) -> bool {
        let rp = pre.roll_pid(set_point);
        let pp = pre.pitch_pid(set_point);
        let yp = pre.yaw_pid(set_point);
        let rd = axis_data(imu_attitude.0, gyro_rate.0, dt, pre.i_limit, low_throttle);
        let pd = axis_data(imu_attitude.1, gyro_rate.1, dt, pre.i_limit, low_throttle);
        let yd = axis_data(imu_attitude.2, gyro_rate.2, dt, pre.i_limit, low_throttle);
        &&& post.pid_roll == (PidController { integral: post.pid_roll.integral, ..rp })
        &&& post.pid_pitch == (PidController { integral: post.pid_pitch.integral, ..pp })
        &&& post.pid_yaw == (PidController { integral: post.pid_yaw.integral, ..yp })
        &&& post.pid_roll.integral.v() == rp.spec_integral(rd)
        &&& post.pid_pitch.integral.v() == pp.spec_integral(pd)
        &&& post.pid_yaw.integral.v() == yp.spec_integral(yd)
        &&& post.i_limit == pre.i_limit
        &&& post.scale == pre.scale
        &&& out.0.v() == pre.scale.v() * rp.spec_output(rd)
        &&& out.1.v() == pre.scale.v() * pp.spec_output(pd)
        &&& out.2.v() == pre.scale.v() * yp.spec_output(yd)
    }

    fn control(
        &mut self,
        set_point: (T, T, T),
        imu_attitude: (T, T, T),
        gyro_rate: (T, T, T),
        dt: T,
        low_throttle: bool,
    ) -> (out: (T, T, T)) {
        self.pid_roll.set_point = set_point.0;
        self.pid_pitch.set_point = set_point.1;
        self.pid_yaw.set_point = set_point.2;

        let data_roll = AngleControlData {
            measurement: imu_attitude.0,
            rate: gyro_rate.0,
            dt,
            integral_limit: self.i_limit,
            reset_integral: low_throttle,
        };
        let data_pitch = AngleControlData {
            measurement: imu_attitude.1,
            rate: gyro_rate.1,
            dt,
            integral_limit: self.i_limit,
            reset_integral: low_throttle,
        };
        let data_yaw = AngleControlData {
            measurement: imu_attitude.2,
            rate: gyro_rate.2,
            dt,
            integral_limit: self.i_limit,
            reset_integral: low_throttle,
        };

        let roll_out = self.pid_roll.compute(data_roll);
        let pitch_out = self.pid_pitch.compute(data_pitch);
        let yaw_out = self.pid_yaw.compute(data_yaw);

        (self.scale.mul(roll_out), self.scale.mul(pitch_out), self.scale.mul(yaw_out))
    }
}

/// What one cascade axis step computes, from the axis's engines and inputs:
/// the outer engine's new integral, the inner engine's new integral, the
/// saturated pre-blend value fed to the inner loop as its rate setpoint, and
/// the scaled blended axis command.  The two loops take their anti-windup
/// resets separately, so a stabilizer can couple or decouple them.
pub open spec fn cascade_axis_spec<T: Number>(
    outer: PidController<T>,
    inner: PidController<T>,
    blending: CascadeBlendingConfig<T, 2>,
    sp: T,
    measurement: T,
    rate: T,
    dt: T,
    angle_i_limit: T,
    rate_i_limit: T,
    scale: T,
    outer_reset: bool,
    inner_reset: bool,
) -> (int, int, int, int) {
    let op = PidController { set_point: sp, ..outer };
    let ad = axis_data(measurement, rate, dt, angle_i_limit, outer_reset);
    let id = axis_data(rate, rate, dt, rate_i_limit, inner_reset);
    let outer_out = op.spec_output(ad);
    let pre = blending.spec_pre(outer_out);
    let inner_out = inner.spec_output_at(pre, id);
    (
        op.spec_integral(ad),
        inner.spec_integral_at(pre, id),
        pre,
        scale.v() * blending.spec_blend(outer_out, inner_out),
    )
}

/// What one cascade axis step asks: both engine ticks and the blend stay
/// representable, with defined clamps.
pub open spec fn cascade_axis_req<T: Number>(
    outer: PidController<T>,
    inner: PidController<T>,
    blending: CascadeBlendingConfig<T, 2>,
    sp: T,
    measurement: T,
    rate: T,
    dt: T,
    angle_i_limit: T,
    rate_i_limit: T,
    scale: T,
    outer_reset: bool,
    inner_reset: bool,
) -> bool {
    let op = PidController { set_point: sp, ..outer };
    let ad = axis_data(measurement, rate, dt, angle_i_limit, outer_reset);
    let id = axis_data(rate, rate, dt, rate_i_limit, inner_reset);
    let outer_out = op.spec_output(ad);
    let pre = blending.spec_pre(outer_out);
    let inner_out = inner.spec_output_at(pre, id);
    &&& op.tick_req(ad)
    &&& blending.limit.v() >= 0
    &&& T::in_range(blending.k.v() * outer_out)
    &&& T::in_range(-blending.limit.v())
    &&& inner.tick_req_at(pre, id)
    &&& T::in_range(blending.beta[0].v() * pre)
    &&& T::in_range(blending.beta[1].v() * inner_out)
    &&& T::in_range(blending.spec_blend(outer_out, inner_out))
    &&& T::in_range(scale.v() * blending.spec_blend(outer_out, inner_out))
}

/// Advances one axis of a cascade stabilizer: the outer (angle) engine ticks
/// on the attitude measurement; its output, scaled by the pre-blend gain and
/// saturated, becomes the rate setpoint of the inner (rate) engine, which
/// ticks on the gyro rate; the saturated value and the inner output are then
/// blended by their weights and scaled to the actuator range.  Each loop
/// takes its own anti-windup reset flag, so callers choose how the two
/// loops' resets are coupled.
pub fn cascade_axis<T: Number>(
    outer: &mut PidController<T>,
    inner: &mut PidController<T>,
    blending: &CascadeBlendingConfig<T, 2>,
    sp: T,
    measurement: T,
    rate: T,
    dt: T,
    angle_i_limit: T,
    rate_i_limit: T,
    scale: T,
    outer_reset: bool,
    inner_reset: bool,
) -> (r: T)
    requires
        cascade_axis_req(
            *old(outer),
            *old(inner),
            *blending,
            sp,
            measurement,
            rate,
            dt,
            angle_i_limit,
            rate_i_limit,
            scale,
            outer_reset,
            inner_reset,
        ),
    ensures
        ({
            let s = cascade_axis_spec(
                *old(outer),
                *old(inner),
                *blending,
                sp,
                measurement,
                rate,
                dt,
                angle_i_limit,
                rate_i_limit,
                scale,
                outer_reset,
                inner_reset,
            );
            &&& *final(outer) == (PidController {
                set_point: sp,
                integral: final(outer).integral,
                ..*old(outer)
            })
            &&& final(outer).integral.v() == s.0
            &&& *final(inner) == (PidController {
                set_point: final(inner).set_point,
                integral: final(inner).integral,
                ..*old(inner)
            })
            &&& final(inner).set_point.v() == s.2
            &&& final(inner).integral.v() == s.1
            &&& r.v() == s.3
        }),
{
    outer.set_point = sp;
    let angle_data = AngleControlData {
        measurement,
        rate,
        dt,
        integral_limit: angle_i_limit,
        reset_integral: outer_reset,
    };
    let outer_out = outer.compute(angle_data);

    let pre = blending.k.mul(outer_out).clamp(blending.limit.neg(), blending.limit);
    inner.set_point = pre;
    let rate_data = AngleControlData {
        measurement: rate,
        rate,
        dt,
        integral_limit: rate_i_limit,
        reset_integral: inner_reset,
    };
    let inner_out = inner.compute(rate_data);

    let blended = blending.beta[0].mul(pre).add(blending.beta[1].mul(inner_out));
    scale.mul(blended)
}

/// A flight stabilizer with two nested loops per axis: an outer angle-mode
/// engine whose saturated, gain-scaled output becomes the rate setpoint of
/// an inner rate engine, the two loop outputs blended into one axis command.
#[derive(Debug, Clone, Copy, PartialEq)]
pub struct Angle2Stabilizer<T> {
    /// The outer (angle) roll engine.
    pub pid_angle_roll: PidController<T>,
    /// The outer (angle) pitch engine.
    pub pid_angle_pitch: PidController<T>,
    /// The outer (angle) yaw engine.
    pub pid_angle_yaw: PidController<T>,
    /// The inner (rate) roll engine.
    pub pid_rate_roll: PidController<T>,
    /// The inner (rate) pitch engine.
    pub pid_rate_pitch: PidController<T>,
    /// The inner (rate) yaw engine.
    pub pid_rate_yaw: PidController<T>,
    /// The blending weights, pre-blend gain, and saturation bound shared by
    /// the three axes.
    pub blending: CascadeBlendingConfig<T, 2>,
    /// The symmetric bound on each outer engine's integral term.
    pub angle_i_limit: T,
    /// The symmetric bound on each inner engine's integral term.
    pub rate_i_limit: T,
    /// The scale factor mapping blended commands to actuator units.
    pub scale: T,
    /// The reset-coupling policy: whether the inner loop's integral also
    /// takes the level-triggered low-throttle anti-windup reset that the
    /// outer loop always takes.
    pub couple_inner_reset: bool,
}

impl<T: Number> Angle2Stabilizer<T> {
    /// Creates a cascade stabilizer from an outer (angle) loop
    /// configuration, an inner (rate) loop configuration, and a blending
    /// configuration.  Each engine takes its gains and initial setpoint from
    /// its loop's configuration, with a zero persisted integral; the inner
    /// loop's configuration supplies the actuator scale.  The reset-coupling
    /// policy starts conservative: both loops take the low-throttle reset.
    pub fn with_config(
        angle_config: FlightStabilizerConfig<T>,
        rate_config: FlightStabilizerConfig<T>,
        blending_config: CascadeBlendingConfig<T, 2>,
    ) -> (r: Self)
        ensures
            r.pid_angle_roll == (PidController {
                set_point: angle_config.set_point_roll,
                kp: angle_config.kp_roll,
                ki: angle_config.ki_roll,
                kd: angle_config.kd_roll,
                integral: r.pid_angle_roll.integral,
                strategy: ComputeStrategy::Angle,
            }),
            r.pid_angle_pitch == (PidController {
                set_point: angle_config.set_point_pitch,
                kp: angle_config.kp_pitch,
                ki: angle_config.ki_pitch,
                kd: angle_config.kd_pitch,
                integral: r.pid_angle_pitch.integral,
                strategy: ComputeStrategy::Angle,
            }),
            r.pid_angle_yaw == (PidController {
                set_point: angle_config.set_point_yaw,
                kp: angle_config.kp_yaw,
                ki: angle_config.ki_yaw,
                kd: angle_config.kd_yaw,
                integral: r.pid_angle_yaw.integral,
                strategy: ComputeStrategy::Angle,
            }),
            r.pid_rate_roll == (PidController {
                set_point: rate_config.set_point_roll,
                kp: rate_config.kp_roll,
                ki: rate_config.ki_roll,
                kd: rate_config.kd_roll,
                integral: r.pid_rate_roll.integral,
                strategy: ComputeStrategy::Angle,
            }),
            r.pid_rate_pitch == (PidController {
                set_point: rate_config.set_point_pitch,
                kp: rate_config.kp_pitch,
                ki: rate_config.ki_pitch,
                kd: rate_config.kd_pitch,
                integral: r.pid_rate_pitch.integral,
                strategy: ComputeStrategy::Angle,
            }),
            r.pid_rate_yaw == (PidController {
                set_point: rate_config.set_point_yaw,
                kp: rate_config.kp_yaw,
                ki: rate_config.ki_yaw,
                kd: rate_config.kd_yaw,
                integral: r.pid_rate_yaw.integral,
                strategy: ComputeStrategy::Angle,
            }),
            r.pid_angle_roll.integral.v() == 0,
            r.pid_angle_pitch.integral.v() == 0,
            r.pid_angle_yaw.integral.v() == 0,
            r.pid_rate_roll.integral.v() == 0,
            r.pid_rate_pitch.integral.v() == 0,
            r.pid_rate_yaw.integral.v() == 0,
            r.blending == blending_config,
            r.angle_i_limit == angle_config.i_limit,
            r.rate_i_limit == rate_config.i_limit,
            r.scale == rate_config.scale,
            r.couple_inner_reset == true,
    {
        Angle2Stabilizer {
            pid_angle_roll: PidController {
                set_point: angle_config.set_point_roll,
                kp: angle_config.kp_roll,
                ki: angle_config.ki_roll,
                kd: angle_config.kd_roll,
                integral: T::zero(),
                strategy: ComputeStrategy::Angle,
            },
            pid_angle_pitch: PidController {
                set_point: angle_config.set_point_pitch,
                kp: angle_config.kp_pitch,
                ki: angle_config.ki_pitch,
                kd: angle_config.kd_pitch,
                integral: T::zero(),
                strategy: ComputeStrategy::Angle,
            },
            pid_angle_yaw: PidController {
                set_point: angle_config.set_point_yaw,
                kp: angle_config.kp_yaw,
                ki: angle_config.ki_yaw,
                kd: angle_config.kd_yaw,
                integral: T::zero(),
                strategy: ComputeStrategy::Angle,
            },
            pid_rate_roll: PidController {
                set_point: rate_config.set_point_roll,
                kp: rate_config.kp_roll,
                ki: rate_config.ki_roll,
                kd: rate_config.kd_roll,
                integral: T::zero(),
                strategy: ComputeStrategy::Angle,
            },
            pid_rate_pitch: PidController {
                set_point: rate_config.set_point_pitch,
                kp: rate_config.kp_pitch,
                ki: rate_config.ki_pitch,
                kd: rate_config.kd_pitch,
                integral: T::zero(),
                strategy: ComputeStrategy::Angle,
            },
            pid_rate_yaw: PidController {
                set_point: rate_config.set_point_yaw,
                kp: rate_config.kp_yaw,
                ki: rate_config.ki_yaw,
                kd: rate_config.kd_yaw,
                integral: T::zero(),
                strategy: ComputeStrategy::Angle,
            },
            blending: blending_config,
            angle_i_limit: angle_config.i_limit,
            rate_i_limit: rate_config.i_limit,
            scale: rate_config.scale,
            couple_inner_reset: true,
        }
    }
}

impl<T: Number> FlightStabilizer<T> for Angle2Stabilizer<T> {
    /// A control step runs when each axis's cascade step stays
    /// representable.
    open spec fn control_req(
        self,
        set_point: (T, T, T),
        imu_attitude: (T, T, T),
        gyro_rate: (T, T, T),
        dt: T,
        low_throttle: bool,
    ) -> bool {
        &&& cascade_axis_req(
            self.pid_angle_roll,
            self.pid_rate_roll,
            self.blending,
            set_point.0,
            imu_attitude.0,
            gyro_rate.0,
            dt,
            self.angle_i_limit,
            self.rate_i_limit,
            self.scale,
            low_throttle,
            low_throttle && self.couple_inner_reset,
        )
        &&& cascade_axis_req(
            self.pid_angle_pitch,
            self.pid_rate_pitch,
            self.blending,
            set_point.1,
            imu_attitude.1,
            gyro_rate.1,
            dt,
            self.angle_i_limit,
            self.rate_i_limit,
            self.scale,
            low_throttle,
            low_throttle && self.couple_inner_reset,
        )
        &&& cascade_axis_req(
            self.pid_angle_yaw,
            self.pid_rate_yaw,
            self.blending,
            set_point.2,
            imu_attitude.2,
            gyro_rate.2,
            dt,
            self.angle_i_limit,
            self.rate_i_limit,
            self.scale,
            low_throttle,
            low_throttle && self.couple_inner_reset,
        )
    }

    /// After a control step, on each axis the outer engine holds the step's
    /// setpoint and its tick's integral, the inner engine holds the
    /// saturated pre-blend value as its setpoint and its tick's integral,
    /// the returned output is the scaled blended command, and everything
    /// else is unchanged.
    open spec fn control_ensures(
        pre: Self,
        post: Self,
        set_point: (T, T, T),
        imu_attitude: (T, T, T),
        gyro_rate: (T, T, T),
        dt: T,
        low_throttle: bool,
        out: (T, T, T),
    ) -> bool {
        let sr = cascade_axis_spec(
            pre.pid_angle_roll,
            pre.pid_rate_roll,
            pre.blending,
            set_point.0,
            imu_attitude.0,
            gyro_rate.0,
            dt,
            pre.angle_i_limit,
            pre.rate_i_limit,
            pre.scale,
            low_throttle,
            low_throttle && pre.couple_inner_reset,
        );
        let sp = cascade_axis_spec(
            pre.pid_angle_pitch,
            pre.pid_rate_pitch,
            pre.blending,
            set_point.1,
            imu_attitude.1,
            gyro_rate.1,
            dt,
            pre.angle_i_limit,
            pre.rate_i_limit,
            pre.scale,
            low_throttle,
            low_throttle && pre.couple_inner_reset,
        );
        let sy = cascade_axis_spec(
            pre.pid_angle_yaw,
            pre.pid_rate_yaw,
            pre.blending,
            set_point.2,
            imu_attitude.2,
            gyro_rate.2,
            dt,
            pre.angle_i_limit,
            pre.rate_i_limit,
            pre.scale,
            low_throttle,
            low_throttle && pre.couple_inner_reset,
        );
        &&& post.pid_angle_roll == (PidController {
            set_point: set_point.0,
            integral: post.pid_angle_roll.integral,
            ..pre.pid_angle_roll
        })
        &&& post.pid_angle_pitch == (PidController {
            set_point: set_point.1,
            integral: post.pid_angle_pitch.integral,
            ..pre.pid_angle_pitch
        })
        &&& post.pid_angle_yaw == (PidController {
            set_point: set_point.2,
            integral: post.pid_angle_yaw.integral,
            ..pre.pid_angle_yaw
        })
        &&& post.pid_angle_roll.integral.v() == sr.0
        &&& post.pid_angle_pitch.integral.v() == sp.0
        &&& post.pid_angle_yaw.integral.v() == sy.0
        &&& post.pid_rate_roll == (PidController {
            set_point: post.pid_rate_roll.set_point,
            integral: post.pid_rate_roll.integral,
            ..pre.pid_rate_roll
        })
        &&& post.pid_rate_pitch == (PidController {
            set_point: post.pid_rate_pitch.set_point,
            integral: post.pid_rate_pitch.integral,
            ..pre.pid_rate_pitch
        })
        &&& post.pid_rate_yaw == (PidController {
            set_point: post.pid_rate_yaw.set_point,
            integral: post.pid_rate_yaw.integral,
            ..pre.pid_rate_yaw
        })
        &&& post.pid_rate_roll.set_point.v() == sr.2
        &&& post.pid_rate_pitch.set_point.v() == sp.2
        &&& post.pid_rate_yaw.set_point.v() == sy.2
        &&& post.pid_rate_roll.integral.v() == sr.1
        &&& post.pid_rate_pitch.integral.v() == sp.1
        &&& post.pid_rate_yaw.integral.v() == sy.1
        &&& post.blending == pre.blending
        &&& post.angle_i_limit == pre.angle_i_limit
        &&& post.rate_i_limit == pre.rate_i_limit
        &&& post.scale == pre.scale
        &&& post.couple_inner_reset == pre.couple_inner_reset
        &&& out.0.v() == sr.3
        &&& out.1.v() == sp.3
        &&& out.2.v() == sy.3
    }

    fn control(
        &mut self,
        set_point: (T, T, T),
        imu_attitude: (T, T, T),
        gyro_rate: (T, T, T),
        dt: T,
        low_throttle: bool,
    ) -> (out: (T, T, T)) {
        let roll_out = cascade_axis(
            &mut self.pid_angle_roll,
            &mut self.pid_rate_roll,
            &self.blending,
            set_point.0,
            imu_attitude.0,
            gyro_rate.0,
            dt,
            self.angle_i_limit,
            self.rate_i_limit,
            self.scale,
            low_throttle,
            low_throttle && self.couple_inner_reset,
        );
        let pitch_out = cascade_axis(
            &mut self.pid_angle_pitch,
            &mut self.pid_rate_pitch,
            &self.blending,
            set_point.1,
            imu_attitude.1,
            gyro_rate.1,
            dt,
            self.angle_i_limit,
            self.rate_i_limit,
            self.scale,
            low_throttle,
            low_throttle && self.couple_inner_reset,
        );
        let yaw_out = cascade_axis(
            &mut self.pid_angle_yaw,
            &mut self.pid_rate_yaw,
            &self.blending,
            set_point.2,
            imu_attitude.2,
            gyro_rate.2,
            dt,
            self.angle_i_limit,
            self.rate_i_limit,
            self.scale,
            low_throttle,
            low_throttle && self.couple_inner_reset,
        );
        (roll_out, pitch_out, yaw_out)
    }
}

} // verus!
