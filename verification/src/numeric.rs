//! The numeric capability set that all control computation is generic over.

use vstd::prelude::*;

verus! {

/// Mathematical clamp: `min` if `x` lies below `min`, `max` if `x` lies above
/// `max`, and `x` itself otherwise.  With `min <= max` the result always lies
/// within `[min, max]`.
pub open spec fn spec_clamp(x: int, min: int, max: int) -> int {
    if x < min {
        min
    } else if max < x {
        max
    } else {
        x
    }
}

/// Capability set for control scalars: total ordering, ring arithmetic,
/// additive and multiplicative identities, and clamping.
///
/// A scalar carries a mathematical value, given by [`Number::v`], and a range
/// of representable values, given by [`Number::in_range`].  Every operation
/// states its result exactly in terms of `v`, so the control laws proved over
/// this trait hold for any representation that implements it.
pub trait Number: Sized + Copy {
    /// The mathematical value this scalar stands for.
    spec fn v(self) -> int;

    /// Whether the representation can hold the mathematical value `i`.
    spec fn in_range(i: int) -> bool;

    /// The additive identity.
    fn zero() -> (r: Self)
        ensures
            r.v() == 0,
    ;

    /// The multiplicative identity.
    fn one() -> (r: Self)
        ensures
            r.v() == 1,
    ;

    /// Exact addition.
    fn add(self, other: Self) -> (r: Self)
        requires
            Self::in_range(self.v() + other.v()),
        ensures
            r.v() == self.v() + other.v(),
    ;

    /// Exact subtraction.
    fn sub(self, other: Self) -> (r: Self)
        requires
            Self::in_range(self.v() - other.v()),
        ensures
            r.v() == self.v() - other.v(),
    ;

    /// Exact multiplication.
    fn mul(self, other: Self) -> (r: Self)
        requires
            Self::in_range(self.v() * other.v()),
        ensures
            r.v() == self.v() * other.v(),
    ;

    /// Exact negation.
    fn neg(self) -> (r: Self)
        requires
            Self::in_range(-self.v()),
        ensures
            r.v() == -self.v(),
    ;

    /// Strict ordering comparison.
    fn lt(self, other: Self) -> (r: bool)
        ensures
            r == (self.v() < other.v()),
    ;

    /// Clamps `self` within `[min, max]`: returns `min` if `self < min`,
    /// `max` if `max < self`, and `self` unchanged otherwise.
    fn clamp(self, min: Self, max: Self) -> (r: Self)
        ensures
            r.v() == spec_clamp(self.v(), min.v(), max.v()),
    {
        if self.lt(min) {
            min
        } else if max.lt(self) {
            max
        } else {
            self
        }
    }
}

impl Number for i64 {
    open spec fn v(self) -> int {
        self as int
    }

    open spec fn in_range(i: int) -> bool {
        i64::MIN <= i <= i64::MAX
    }

    fn zero() -> (r: Self) {
        0
    }

    fn one() -> (r: Self) {
        1
    }

    fn add(self, other: Self) -> (r: Self) {
        self + other
    }

    fn sub(self, other: Self) -> (r: Self) {
        self - other
    }

    fn mul(self, other: Self) -> (r: Self) {
        self * other
    }

    fn neg(self) -> (r: Self) {
        -self
    }

    fn lt(self, other: Self) -> (r: bool) {
        self < other
    }
}

impl Number for i32 {
    open spec fn v(self) -> int {
        self as int
    }

    open spec fn in_range(i: int) -> bool {
        i32::MIN <= i <= i32::MAX
    }

    fn zero() -> (r: Self) {
        0
    }

    fn one() -> (r: Self) {
        1
    }

    fn add(self, other: Self) -> (r: Self) {
        self + other
    }

    fn sub(self, other: Self) -> (r: Self) {
        self - other
    }

    fn mul(self, other: Self) -> (r: Self) {
        self * other
    }

    fn neg(self) -> (r: Self) {
        -self
    }

    fn lt(self, other: Self) -> (r: bool) {
        self < other
    }
}

} // verus!
