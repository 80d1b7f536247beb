//! Character races.

pub mod dwarf;

pub mod generic_model;

pub mod hill_dwarf;

use vstd::prelude::*;
use vstd::string::StringExecFns;

verus! {

/// Number of core races.
pub const RESERVED_RACES: u8 = 8;

/// Identifies a race.
///
/// Races from the SRD start with an `_`.
#[derive(Debug)]
pub struct RaceId(pub String);

impl View for RaceId {
    type V = Seq<char>;

    open spec fn view(&self) -> Seq<char> {
        self.0@
    }
}

impl RaceId {
    /// Constructs a `RaceId` from a string slice.
    pub fn from_str(item: &str) -> (r: Self)
        ensures
            r@ == item@,
    {
        RaceId(String::from_str(item))
    }
}

impl Clone for RaceId {
    /// Clones the id, preserving its value.
    fn clone(&self) -> (r: Self)
        ensures
            r@ == self@,
    {
        RaceId(self.0.clone())
    }
}

impl PartialEq for RaceId {
    fn eq(&self, other: &Self) -> (r: bool) {
        self.0 == other.0
    }
}

impl vstd::std_specs::cmp::PartialEqSpecImpl for RaceId {
    open spec fn obeys_eq_spec() -> bool {
        true
    }

    open spec fn eq_spec(&self, other: &Self) -> bool {
        self.0@ == other.0@
    }
}

} // verus!
