//! Levels of characters.

use crate::error::{SRDError, SRDResult};
use vstd::prelude::*;

verus! {

/// Minimum level.
pub const LEVEL_MIN: u8 = 1;

/// Maximum level.
pub const LEVEL_MAX: u8 = 20;

/// Character's level.
///
/// As a character overcomes challenges it gains experience and advances in
/// capability; the level is always between [`LEVEL_MIN`] and [`LEVEL_MAX`].
#[derive(Clone, Copy, Debug, PartialEq)]
pub struct Level {
    value: u8,
}

impl Level {
    /// The legal range of levels.
    #[verifier::type_invariant]
    pub closed spec fn wf(self) -> bool {
        LEVEL_MIN <= self.value <= LEVEL_MAX
    }

    /// The level's numeric value.
    pub closed spec fn spec_value(self) -> u8 {
        self.value
    }

    /// Returns true if the given value is a valid level.
    pub fn is_value_valid(value: u8) -> (r: bool)
        ensures
            r == (LEVEL_MIN <= value <= LEVEL_MAX),
    {
        crate::util::is_value_valid(value, LEVEL_MIN, LEVEL_MAX)
    }

    /// Constructs a new `Level` with the given value.
    ///
    /// An error is returned if and only if the provided value is out of
    /// bounds.
    pub fn new(value: u8) -> (r: SRDResult<Self>)
        ensures
            LEVEL_MIN <= value <= LEVEL_MAX ==> (r matches Ok(l) && l.spec_value() == value),
            !(LEVEL_MIN <= value <= LEVEL_MAX) ==> r == Err::<Self, SRDError>(
                SRDError::InvalidLevel(value),
            ),
    {
        if Self::is_value_valid(value) {
            Ok(Self { value })
        } else {
            Err(SRDError::InvalidLevel(value))
        }
    }

    /// Returns the value of this level.
    pub fn value(&self) -> (r: u8)
        ensures
            r == self.spec_value(),
            LEVEL_MIN <= r <= LEVEL_MAX,
    {
        proof {
            use_type_invariant(self);
        }
        self.value
    }

    /// Sets a new value.
    ///
    /// An error is returned if and only if the provided value is out of
    /// bounds; the level is unchanged in that case.
    pub fn set_value(&mut self, value: u8) -> (r: SRDResult<()>)
        ensures
            LEVEL_MIN <= value <= LEVEL_MAX ==> (r matches Ok(u) && final(self).spec_value()
                == value),
            !(LEVEL_MIN <= value <= LEVEL_MAX) ==> (r == Err::<(), SRDError>(
                SRDError::InvalidLevel(value),
            ) && *final(self) == *old(self)),
    {
        if Self::is_value_valid(value) {
            *self = Self { value };
            Ok(())
        } else {
            Err(SRDError::InvalidLevel(value))
        }
    }
}

impl Default for Level {
    /// The starting level.
    fn default() -> (r: Self)
        ensures
            r.spec_value() == LEVEL_MIN,
    {
        Self { value: LEVEL_MIN }
    }
}

} // verus!
