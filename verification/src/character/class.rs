//! Character classes.

pub mod fighter;

use crate::character::level::Level;
use crate::dice::{spec_die_sides, Dice};
use crate::hit_points::HitDice;
use crate::proficiency::ProficiencyBonus;
use vstd::prelude::*;
use vstd::string::StringExecFns;

verus! {

/// Number of core classes.
pub const RESERVED_CLASSES: u8 = 12;

/// Identifies a class.
///
/// Classes from the SRD start with an `_`.
#[derive(Debug)]
pub struct ClassId(pub String);

impl View for ClassId {
    type V = Seq<char>;

    open spec fn view(&self) -> Seq<char> {
        self.0@
    }
}

impl ClassId {
    /// Constructs a `ClassId` from a string slice.
    pub fn from_str(item: &str) -> (r: Self)
        ensures
            r@ == item@,
    {
        ClassId(String::from_str(item))
    }
}

impl Clone for ClassId {
    /// Clones the id, preserving its value.
    fn clone(&self) -> (r: Self)
        ensures
            r@ == self@,
    {
        ClassId(self.0.clone())
    }
}

impl PartialEq for ClassId {
    fn eq(&self, other: &Self) -> (r: bool) {
        self.0 == other.0
    }
}

impl vstd::std_specs::cmp::PartialEqSpecImpl for ClassId {
    open spec fn obeys_eq_spec() -> bool {
        true
    }

    open spec fn eq_spec(&self, other: &Self) -> bool {
        self.0@ == other.0@
    }
}

/// The standard proficiency bonus at a given level value.
pub open spec fn spec_proficiency_bonus_at_level(level: int) -> int {
    (level - 1) / 4 + 2
}

/// Returns the standard proficiency bonus at the given level.
pub fn proficiency_bonus_at_level(level: &Level) -> (r: ProficiencyBonus)
    ensures
        r.0 == spec_proficiency_bonus_at_level(level.spec_value() as int),
        2 <= r.0 <= 6,
{
    let value = level.value();
    ProficiencyBonus((value - 1) / 4 + 2)
}

/// Describes all bonuses and maluses of a class, as a registrable data
/// record: the hit die determines the hit points granted at first level,
/// and the proficiency bonus follows the standard per-level formula.
#[derive(Debug)]
pub struct ClassModel {
    hit_dice: Dice,
}

impl ClassModel {
    /// The hit dice rolled for each level of this class.
    pub closed spec fn spec_hit_dice(self) -> Dice {
        self.hit_dice
    }

    /// Constructs a class model with the given hit dice.
    pub fn new(hit_dice: Dice) -> (r: Self)
        ensures
            r.spec_hit_dice() == hit_dice,
    {
        Self { hit_dice }
    }

    /// Returns the hit dice per level.
    pub fn hit_dice(&self) -> (r: HitDice)
        ensures
            r == self.spec_hit_dice(),
    {
        self.hit_dice
    }

    /// Returns the base hit points at first level: the maximum face value
    /// of the class's hit die.
    pub fn hit_points_at_1st_level(&self) -> (r: u8)
        ensures
            r == spec_die_sides(self.spec_hit_dice().die),
            r >= 4,
    {
        self.hit_dice.die.max()
    }

    /// Returns the proficiency bonus at the given level.
    pub fn proficiency_bonus(&self, level: &Level) -> (r: ProficiencyBonus)
        ensures
            r.0 == spec_proficiency_bonus_at_level(level.spec_value() as int),
            2 <= r.0 <= 6,
    {
        proficiency_bonus_at_level(level)
    }
}

impl Clone for ClassModel {
    /// Clones the model, preserving its hit dice.
    fn clone(&self) -> (r: Self)
        ensures
            r == *self,
    {
        Self { hit_dice: self.hit_dice }
    }
}

} // verus!
