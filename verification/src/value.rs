//! Module for numerical values.

use vstd::prelude::*;

verus! {

/// The value of `v` clamped into `[0, max]`.
pub open spec fn spec_bounded(v: int, max: int) -> int {
    if v < 0 {
        0
    } else if v > max {
        max
    } else {
        v
    }
}

/// A numerical value bounded between 0 and a maximum.
///
/// The value is kept clamped into `[0, max]` at all times; arithmetic on it
/// saturates at the bounds instead of overflowing or wrapping.
#[derive(Debug, Clone, Copy, PartialEq)]
pub struct PositiveBoundedValue {
    value: i64,
    max: i64,
}

impl PositiveBoundedValue {
    /// The value always sits inside `[0, max]`.
    #[verifier::type_invariant]
    pub closed spec fn wf(self) -> bool {
        0 <= self.value <= self.max
    }

    /// The current value.
    pub closed spec fn spec_value(self) -> i64 {
        self.value
    }

    /// The upper bound.
    pub closed spec fn spec_max(self) -> i64 {
        self.max
    }

    /// Clamps `value` into `[0, max]`.
    fn capped_value(value: i64, max: i64) -> (r: i64)
        requires
            max >= 0,
        ensures
            r == spec_bounded(value as int, max as int),
    {
        if value < 0 {
            0
        } else if value > max {
            max
        } else {
            value
        }
    }

    /// Constructs a new `PositiveBoundedValue`; a negative maximum is raised
    /// to 0 and the value is clamped into range.
    pub fn new(value: i64, max: i64) -> (r: Self)
        ensures
            r.spec_max() == if max < 0 { 0int } else { max as int },
            r.spec_value() == spec_bounded(value as int, r.spec_max() as int),
    {
        let max = if max < 0 { 0 } else { max };
        Self { value: Self::capped_value(value, max), max }
    }

    /// Constructs a new `PositiveBoundedValue` whose value and maximum are
    /// both the given value.
    pub fn from_value(value: i64) -> (r: Self)
        ensures
            r.spec_max() == if value < 0 { 0int } else { value as int },
            r.spec_value() == r.spec_max(),
    {
        Self::new(value, value)
    }

    /// Returns the current value.
    pub fn value(&self) -> (r: i64)
        ensures
            r == self.spec_value(),
            0 <= r <= self.spec_max(),
    {
        proof {
            use_type_invariant(self);
        }
        self.value
    }

    /// Sets a new value, clamped into `[0, max]`.
    pub fn set_value(&mut self, value: i64)
        ensures
            final(self).spec_max() == old(self).spec_max(),
            final(self).spec_value() == spec_bounded(value as int, old(self).spec_max() as int),
    {
        proof {
            use_type_invariant(&*self);
        }
        *self = Self { value: Self::capped_value(value, self.max), max: self.max };
    }

    /// Returns the maximum value.
    pub fn max(&self) -> (r: i64)
        ensures
            r == self.spec_max(),
            r >= 0,
    {
        proof {
            use_type_invariant(self);
        }
        self.max
    }

    /// Sets a new maximum; a negative maximum is raised to 0 and the value
    /// is clamped into the new range.
    pub fn set_max(&mut self, max: i64)
        ensures
            final(self).spec_max() == if max < 0 { 0int } else { max as int },
            final(self).spec_value() == spec_bounded(
                old(self).spec_value() as int,
                final(self).spec_max() as int,
            ),
    {
        proof {
            use_type_invariant(&*self);
        }
        let new_max = if max < 0 { 0 } else { max };
        *self = Self { value: Self::capped_value(self.value, new_max), max: new_max };
    }

    /// Adds `n` to the current value, clamping the result into `[0, max]`.
    pub fn add(&mut self, n: i64)
        ensures
            final(self).spec_max() == old(self).spec_max(),
            final(self).spec_value() == spec_bounded(
                old(self).spec_value() + n,
                old(self).spec_max() as int,
            ),
    {
        proof {
            use_type_invariant(&*self);
        }
        if n >= 0 {
            let room = self.max - self.value;
            if n >= room {
                *self = Self { value: self.max, max: self.max };
            } else {
                *self = Self { value: self.value + n, max: self.max };
            }
        } else {
            let sum = self.value + n;
            if sum < 0 {
                *self = Self { value: 0, max: self.max };
            } else {
                *self = Self { value: sum, max: self.max };
            }
        }
    }

    /// Subtracts `n` from the current value; if `n` exceeds the current
    /// value the result is 0, and the result is always clamped into
    /// `[0, max]`.
    pub fn subtract(&mut self, n: i64)
        ensures
            final(self).spec_max() == old(self).spec_max(),
            final(self).spec_value() == if n > old(self).spec_value() {
                0int
            } else {
                spec_bounded(old(self).spec_value() - n, old(self).spec_max() as int)
            },
    {
        proof {
            use_type_invariant(&*self);
        }
        if n > self.value {
            *self = Self { value: 0, max: self.max };
        } else if n < 0 {
            let slack = self.value - self.max;
            if n <= slack {
                *self = Self { value: self.max, max: self.max };
            } else {
                *self = Self { value: self.value - n, max: self.max };
            }
        } else {
            *self = Self { value: self.value - n, max: self.max };
        }
    }

    /// Multiplies the current value by `n`, clamping the result into
    /// `[0, max]`.
    pub fn multiply(&mut self, n: i64)
        requires
            i64::MIN <= old(self).spec_value() * n <= i64::MAX,
        ensures
            final(self).spec_max() == old(self).spec_max(),
            final(self).spec_value() == spec_bounded(
                old(self).spec_value() * n,
                old(self).spec_max() as int,
            ),
    {
        proof {
            use_type_invariant(&*self);
        }
        *self = Self { value: Self::capped_value(self.value * n, self.max), max: self.max };
    }

    /// Divides the current value by `n`, clamping the result into
    /// `[0, max]`. Division by zero is not a supported input.
    pub fn divide(&mut self, n: i64)
        requires
            n != 0,
        ensures
            final(self).spec_max() == old(self).spec_max(),
            n > 0 ==> final(self).spec_value() == spec_bounded(
                old(self).spec_value() / n,
                old(self).spec_max() as int,
            ),
            n < 0 ==> final(self).spec_value() == 0,
    {
        proof {
            use_type_invariant(&*self);
        }
        if n < 0 {
            *self = Self { value: 0, max: self.max };
        } else {
            let q = self.value / n;
            *self = Self { value: Self::capped_value(q, self.max), max: self.max };
        }
    }
}

} // verus!
