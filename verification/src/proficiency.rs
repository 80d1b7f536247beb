//! Creatures proficiencies.

use vstd::prelude::*;

verus! {

/// Tells whether or not a proficiency is known.
#[derive(Debug, Clone, Copy, PartialEq, Hash, Eq, Structural)]
pub struct Proficiency(pub bool);

impl From<bool> for Proficiency {
    fn from(item: bool) -> (r: Self) {
        Proficiency(item)
    }
}

impl vstd::std_specs::convert::FromSpecImpl<bool> for Proficiency {
    open spec fn obeys_from_spec() -> bool {
        true
    }

    open spec fn from_spec(item: bool) -> Self {
        Proficiency(item)
    }
}

/// Proficiency bonus.
///
/// Characters have a proficiency bonus determined by level. The bonus
/// might occasionally be multiplied or divided.
#[derive(Debug, Clone, Copy, PartialEq, Hash, Eq, Structural)]
pub struct ProficiencyBonus(pub u8);

impl ProficiencyBonus {
    /// Multiplies this bonus by `n` and returns the result in a new
    /// `ProficiencyBonus`.
    pub fn multiply(&self, n: u8) -> (r: ProficiencyBonus)
        requires
            self.0 * n <= u8::MAX,
        ensures
            r.0 == self.0 * n,
    {
        ProficiencyBonus(self.0 * n)
    }

    /// Divides this bonus by `n` and returns the result (rounded down) in a
    /// new `ProficiencyBonus`. Division by zero is not a supported input.
    pub fn divide_rounded_down(&self, n: u8) -> (r: ProficiencyBonus)
        requires
            n > 0,
        ensures
            r.0 == self.0 / n,
    {
        ProficiencyBonus(self.0 / n)
    }

    /// Divides this bonus by `n` and returns the result (rounded up) in a
    /// new `ProficiencyBonus`. Division by zero is not a supported input.
    pub fn divide_rounded_up(&self, n: u8) -> (r: ProficiencyBonus)
        requires
            n > 0,
            self.0 + n - 1 <= u8::MAX,
        ensures
            r.0 == (self.0 + n - 1) / (n as int),
    {
        ProficiencyBonus((self.0 + (n - 1)) / n)
    }
}

impl From<u8> for ProficiencyBonus {
    fn from(item: u8) -> (r: Self) {
        ProficiencyBonus(item)
    }
}

impl vstd::std_specs::convert::FromSpecImpl<u8> for ProficiencyBonus {
    open spec fn obeys_from_spec() -> bool {
        true
    }

    open spec fn from_spec(item: u8) -> Self {
        ProficiencyBonus(item)
    }
}

} // verus!
