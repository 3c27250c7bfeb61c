//! Laws of the angle-mode controller, proved once for every scalar
//! representation and every input the engine admits.

use vstd::prelude::*;

use crate::numeric::Number;
use crate::numeric::spec_clamp;
use crate::pid::AngleControlData;
use crate::pid::PidController;

verus! {

/// Law: after a tick whose data does not force a reset, the integral term
/// lies within `[-integral_limit, integral_limit]`.
pub proof fn lemma_integral_within_limit<T: Number>(
    pid: PidController<T>,
    data: AngleControlData<T>,
)
    requires
        !data.reset_integral,
        data.integral_limit.v() >= 0,
    ensures
        -data.integral_limit.v() <= pid.spec_integral(data) <= data.integral_limit.v(),
{
}

/// Law: a tick with `reset_integral` set yields a zero integral term,
/// regardless of prior accumulated state.
pub proof fn lemma_reset_zeroes_integral<T: Number>(
    pid: PidController<T>,
    data: AngleControlData<T>,
)
    requires
        data.reset_integral,
    ensures
        pid.spec_integral(data) == 0,
{
}

/// Law: the compute strategy is pure.  Two computations over engine states
/// and data that carry the same mathematical values yield identical
/// `(error, integral, derivative)` terms; the strategy reads nothing else
/// and mutates nothing.
pub proof fn lemma_strategy_pure<T: Number>(
    p1: PidController<T>,
    p2: PidController<T>,
    d1: AngleControlData<T>,
    d2: AngleControlData<T>,
)
    requires
        p1.set_point.v() == p2.set_point.v(),
        p1.integral.v() == p2.integral.v(),
        d1.measurement.v() == d2.measurement.v(),
        d1.rate.v() == d2.rate.v(),
        d1.dt.v() == d2.dt.v(),
        d1.integral_limit.v() == d2.integral_limit.v(),
        d1.reset_integral == d2.reset_integral,
    ensures
        p1.spec_error(d1) == p2.spec_error(d2),
        p1.spec_integral(d1) == p2.spec_integral(d2),
        p1.spec_derivative(d1) == p2.spec_derivative(d2),
{
}

/// The integral an engine has accumulated after `n` consecutive ticks that
/// started from a zero integral and saw the same error and time delta each
/// tick, with no reset.
pub open spec fn accumulated_integral(error: int, dt: int, limit: int, n: nat) -> int
    decreases n,
{
    if n == 0 {
        0
    } else {
        spec_clamp(
            accumulated_integral(error, dt, limit, (n - 1) as nat) + error * dt,
            -limit,
            limit,
        )
    }
}

/// A single engine tick advances the accumulation: an engine whose persisted
/// integral holds the value accumulated over `n` constant ticks computes, on
/// one more tick with the same error and time delta and no reset, the value
/// accumulated over `n + 1`.
pub proof fn lemma_tick_accumulates<T: Number>(
    pid: PidController<T>,
    data: AngleControlData<T>,
    n: nat,
)
    requires
        !data.reset_integral,
        pid.integral.v() == accumulated_integral(
            pid.spec_error(data),
            data.dt.v(),
            data.integral_limit.v(),
            n,
        ),
    ensures
        pid.spec_integral(data) == accumulated_integral(
            pid.spec_error(data),
            data.dt.v(),
            data.integral_limit.v(),
            n + 1,
        ),
{
}

/// Law: however many constant ticks have run, the accumulated integral never
/// leaves `[-limit, limit]` once at least one tick has clamped it there.
pub proof fn lemma_accumulated_integral_bounded(error: int, dt: int, limit: int, n: nat)
    requires
        0 <= limit,
        n >= 1,
    ensures
        -limit <= accumulated_integral(error, dt, limit, n) <= limit,
{
}

/// Accumulation law: across `n` consecutive ticks with constant `error` and
/// `dt`, no reset, and no clamp activation, the persisted integral equals
/// `n * error * dt`.  The clamp stays inactive exactly when that final value
/// lies within the limit, since the intermediate sums lie between zero and
/// it.
pub proof fn lemma_accumulation_unclamped(error: int, dt: int, limit: int, n: nat)
    requires
        0 <= limit,
        -limit <= n * error * dt,
        n * error * dt <= limit,
    ensures
        accumulated_integral(error, dt, limit, n) == n * error * dt,
    decreases n,
{
    if n == 0 {
        assert(n * error * dt == 0) by (nonlinear_arith)
            requires
                n == 0,
        ;
    } else {
        let m = (n - 1) as nat;
        assert(-limit <= m * error * dt && m * error * dt <= limit) by (nonlinear_arith)
            requires
                0 <= limit,
                -limit <= n * error * dt,
                n * error * dt <= limit,
                m == n - 1,
                n >= 1,
        ;
        lemma_accumulation_unclamped(error, dt, limit, m);
        assert(m * error * dt + error * dt == n * error * dt) by (nonlinear_arith)
            requires
                m == n - 1,
        ;
    }
}

} // verus!
