//! Single-axis PID accumulation engine and the angle-mode compute strategy.
//!
//! The engine owns the persisted integral and the gains for one control axis
//! and advances exactly one tick per [`PidController::compute`] call.  Term
//! computation is delegated to a compute strategy selected at construction
//! time; the angle-mode strategy derives `(error, integral, derivative)` with
//! anti-windup clamping and forced reset.

use vstd::prelude::*;

use crate::numeric::Number;
use crate::numeric::spec_clamp;

verus! {

/// Control data for angle-based PID stabilization, created fresh by the
/// caller each tick and fully consumed by it.
#[derive(Debug, Clone, Copy, PartialEq)]
pub struct AngleControlData<T> {
    /// The current measured angle, calculated from sensors.
    pub measurement: T,
    /// The current rate of change, typically reported by a gyro.
    pub rate: T,
    /// The time delta since the last computation.
    pub dt: T,
    /// The maximum allowed value for the integral term, used to prevent
    /// integral windup.
    pub integral_limit: T,
    /// Flag to reset the integral term, typically used when the controller
    /// is inactive.
    pub reset_integral: bool,
}

/// The compute strategy an engine invokes each tick, selected once at
/// construction and never switched mid-flight.
#[derive(Debug, Clone, Copy, PartialEq, Eq, Structural)]
pub enum ComputeStrategy {
    /// Angle-mode control: error against a measured angle, clamped integral,
    /// externally supplied rate as the derivative term.
    Angle,
}

/// Generic, stateful, single-axis PID controller: holds gains, setpoint, the
/// persisted integral, and the compute strategy; advances one tick at a time.
#[derive(Debug, Clone, Copy, PartialEq)]
pub struct PidController<T> {
    /// The target value the controller steers towards.
    pub set_point: T,
    /// Proportional gain.
    pub kp: T,
    /// Integral gain.
    pub ki: T,
    /// Derivative gain.
    pub kd: T,
    /// The persisted integral accumulator, mutated only by
    /// [`PidController::compute`].
    pub integral: T,
    /// The compute strategy invoked each tick.
    pub strategy: ComputeStrategy,
}

impl<T: Number> PidController<T> {
    /// The error term of a tick steered at the setpoint value `sp`:
    /// setpoint minus measurement.
    pub open spec fn spec_error_at(self, sp: int, data: AngleControlData<T>) -> int {
        sp - data.measurement.v()
    }

    /// The integral term of a tick steered at `sp`: zero under a forced
    /// reset, and the accumulated error clamped within the symmetric
    /// integral limit otherwise.
    pub open spec fn spec_integral_at(self, sp: int, data: AngleControlData<T>) -> int {
        if data.reset_integral {
            0
        } else {
            spec_clamp(
                self.integral.v() + self.spec_error_at(sp, data) * data.dt.v(),
                -data.integral_limit.v(),
                data.integral_limit.v(),
            )
        }
    }

    /// The derivative term of a tick: the externally supplied rate
    /// measurement, trusted as-is to avoid amplifying measurement noise.
    pub open spec fn spec_derivative(self, data: AngleControlData<T>) -> int {
        data.rate.v()
    }

    /// The output of a tick steered at `sp`: the gain-weighted sum of the
    /// three terms, the integral term being the freshly accumulated one.
    pub open spec fn spec_output_at(self, sp: int, data: AngleControlData<T>) -> int {
        self.kp.v() * self.spec_error_at(sp, data) + self.ki.v() * self.spec_integral_at(sp, data)
            + self.kd.v() * self.spec_derivative(data)
    }

    /// What the angle-mode strategy asks of a tick steered at `sp`: a
    /// non-negative integral limit (a negative one has no defined clamp),
    /// and every intermediate value representable.
    pub open spec fn angle_req_at(self, sp: int, data: AngleControlData<T>) -> bool {
        let e = self.spec_error_at(sp, data);
        &&& data.integral_limit.v() >= 0
        &&& T::in_range(e)
        &&& T::in_range(-data.integral_limit.v())
        &&& T::in_range(e * data.dt.v())
        &&& T::in_range(self.integral.v() + e * data.dt.v())
    }

    /// What a whole engine tick steered at `sp` asks: the strategy's own
    /// conditions, and every gain-weighted product and partial sum
    /// representable.
    pub open spec fn tick_req_at(self, sp: int, data: AngleControlData<T>) -> bool {
        let e = self.spec_error_at(sp, data);
        let i = self.spec_integral_at(sp, data);
        let d = self.spec_derivative(data);
        &&& self.angle_req_at(sp, data)
        &&& T::in_range(self.kp.v() * e)
        &&& T::in_range(self.ki.v() * i)
        &&& T::in_range(self.kd.v() * d)
        &&& T::in_range(self.kp.v() * e + self.ki.v() * i)
        &&& T::in_range(self.kp.v() * e + self.ki.v() * i + self.kd.v() * d)
    }

    /// The error term of the next tick, at the engine's own setpoint.
    pub open spec fn spec_error(self, data: AngleControlData<T>) -> int {
        self.spec_error_at(self.set_point.v(), data)
    }

    /// The integral term of the next tick, at the engine's own setpoint.
    pub open spec fn spec_integral(self, data: AngleControlData<T>) -> int {
        self.spec_integral_at(self.set_point.v(), data)
    }

    /// The tick output, at the engine's own setpoint.
    pub open spec fn spec_output(self, data: AngleControlData<T>) -> int {
        self.spec_output_at(self.set_point.v(), data)
    }

    /// What the angle-mode strategy asks of a tick, at the engine's own
    /// setpoint.
    pub open spec fn angle_req(self, data: AngleControlData<T>) -> bool {
        self.angle_req_at(self.set_point.v(), data)
    }

    /// What a whole engine tick asks, at the engine's own setpoint.
    pub open spec fn tick_req(self, data: AngleControlData<T>) -> bool {
        self.tick_req_at(self.set_point.v(), data)
    }

    /// Creates an engine with identity-like default gains (`kp = 1`,
    /// `ki = kd = 0`), zero setpoint, zero persisted integral, and the
    /// angle-mode strategy.
    pub fn new() -> (r: Self)
        ensures
            r.set_point.v() == 0,
            r.kp.v() == 1,
            r.ki.v() == 0,
            r.kd.v() == 0,
            r.integral.v() == 0,
            r.strategy == ComputeStrategy::Angle,
    {
        PidController {
            set_point: T::zero(),
            kp: T::one(),
            ki: T::zero(),
            kd: T::zero(),
            integral: T::zero(),
            strategy: ComputeStrategy::Angle,
        }
    }

    /// Selects the compute strategy; part of the chained configuration
    /// interface.
    pub fn compute_fn(&mut self, strategy: ComputeStrategy) -> (r: &mut Self)
        ensures
            *r == (PidController { strategy, ..*old(self) }),
            *final(self) == *final(r),
    {
        self.strategy = strategy;
        self
    }

    /// Sets the target value; part of the chained configuration interface.
    pub fn set_point(&mut self, set_point: T) -> (r: &mut Self)
        ensures
            *r == (PidController { set_point, ..*old(self) }),
            *final(self) == *final(r),
    {
        self.set_point = set_point;
        self
    }

    /// Sets the proportional gain; part of the chained configuration
    /// interface.
    pub fn kp(&mut self, kp: T) -> (r: &mut Self)
        ensures
            *r == (PidController { kp, ..*old(self) }),
            *final(self) == *final(r),
    {
        self.kp = kp;
        self
    }

    /// Sets the integral gain; part of the chained configuration interface.
    pub fn ki(&mut self, ki: T) -> (r: &mut Self)
        ensures
            *r == (PidController { ki, ..*old(self) }),
            *final(self) == *final(r),
    {
        self.ki = ki;
        self
    }

    /// Sets the derivative gain; part of the chained configuration interface.
    pub fn kd(&mut self, kd: T) -> (r: &mut Self)
        ensures
            *r == (PidController { kd, ..*old(self) }),
            *final(self) == *final(r),
    {
        self.kd = kd;
        self
    }

    /// Advances one control tick: invokes the configured compute strategy on
    /// the persisted state and the supplied data, stores the returned
    /// integral as the new persisted integral, and returns the gain-weighted
    /// sum of the three terms.  No other state changes.
    pub fn compute(&mut self, data: AngleControlData<T>) -> (out: T)
        requires
            old(self).tick_req(data),
        ensures
            final(self).integral.v() == old(self).spec_integral(data),
            final(self).set_point == old(self).set_point,
            final(self).kp == old(self).kp,
            final(self).ki == old(self).ki,
            final(self).kd == old(self).kd,
            final(self).strategy == old(self).strategy,
            out.v() == old(self).spec_output(data),
    {
        let cur: PidController<T> = *self;
        let (error, integral, derivative) = match cur.strategy {
            ComputeStrategy::Angle => compute_angle(&cur, data),
        };
        self.integral = integral;
        self.kp.mul(error).add(self.ki.mul(integral)).add(self.kd.mul(derivative))
    }
}

/// Angle-based PID stabilization compute strategy: a pure function of the
/// engine's persisted state and the tick's data.  Derives the error against
/// the setpoint, accumulates the integral with anti-windup clamping (or
/// forces it to zero on reset), and passes the supplied rate through as the
/// derivative term.
pub fn compute_angle<T: Number>(pid: &PidController<T>, data: AngleControlData<T>) -> (r: (
    T,
    T,
    T,
))
    requires
        pid.angle_req(data),
    ensures
        r.0.v() == pid.spec_error(data),
        r.1.v() == pid.spec_integral(data),
        r.2.v() == pid.spec_derivative(data),
{
    let error = pid.set_point.sub(data.measurement);
    let integral = if !data.reset_integral {
        pid.integral.add(error.mul(data.dt)).clamp(data.integral_limit.neg(), data.integral_limit)
    } else {
        T::zero()
    };
    let derivative = data.rate;
    (error, integral, derivative)
}

} // verus!
