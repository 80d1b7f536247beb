//! This module contains creature's speed implementation.

use vstd::prelude::*;

verus! {

/// Speed in feet per round.
pub type SpeedValue = u16;

/// Every character and monster has a speed, which is the distance in feet
/// that the character or monster can walk in one round. This number
/// assumes short bursts of energetic movement in the midst of a
/// life-threatening situation.
#[derive(Debug, Clone, Copy, PartialEq, Eq, Structural)]
pub struct Speed {
    /// Creature's base speed.
    base_value: SpeedValue,
}

/// Travel speeds assume relatively simple terrain: roads, open plains or
/// clear dungeon corridors. Adventurers often face dense forests, deep
/// swamps, rubble-filled ruins, steep mountains and ice-covered ground -
/// all considered difficult terrain.
#[derive(Debug, Clone, Copy, PartialEq, Eq, Structural)]
pub enum Conditions {
    /// Terrain which is considered simple.
    Normal,
    /// Terrain which is considered difficult.
    DifficultTerrain,
}

/// Movement through dangerous dungeons or wilderness areas often involves
/// more than simply walking. Adventurers might have to climb, crawl or
/// swim to get where they need to go.
#[derive(Debug, Clone, Copy, PartialEq, Eq, Structural)]
pub enum MovementType {
    /// The character is climbing.
    Climb,
    /// The character is crawling.
    Crawl,
    /// The character is swimming.
    Swim,
    /// The character is just walking.
    Walk,
}

/// The speed penalty for moving through the given conditions.
pub open spec fn spec_conditions_penalty(conditions: Conditions) -> SpeedValue {
    match conditions {
        Conditions::Normal => 0,
        Conditions::DifficultTerrain => 1,
    }
}

/// The speed penalty for the given movement type.
pub open spec fn spec_movement_type_penalty(movement_type: MovementType) -> SpeedValue {
    match movement_type {
        MovementType::Walk => 0,
        MovementType::Swim => 1,
        MovementType::Crawl => 1,
        MovementType::Climb => 1,
    }
}

impl Speed {
    /// The creature's base speed.
    pub closed spec fn spec_base_value(self) -> SpeedValue {
        self.base_value
    }

    /// Creates `Speed` from a given `SpeedValue`.
    pub fn from(value: SpeedValue) -> (r: Self)
        ensures
            r.spec_base_value() == value,
    {
        Self { base_value: value }
    }

    /// Calculates movement speed based on movement type and the
    /// conditions: each applicable penalty halves the remaining pace by
    /// raising the divisor by one.
    pub fn move_speed(&self, movement_type: MovementType, conditions: Conditions) -> (r:
        SpeedValue)
        ensures
            r == self.spec_base_value() as int / (1 + spec_movement_type_penalty(movement_type)
                + spec_conditions_penalty(conditions)),
    {
        self.base_value / (1 + Self::movement_type_penalty(movement_type)
            + Self::conditions_penalty(conditions))
    }

    /// Returns the speed penalty for the given conditions.
    pub fn conditions_penalty(conditions: Conditions) -> (r: SpeedValue)
        ensures
            r == spec_conditions_penalty(conditions),
    {
        match conditions {
            Conditions::Normal => 0,
            Conditions::DifficultTerrain => 1,
        }
    }

    /// Returns the speed penalty for the given movement type.
    pub fn movement_type_penalty(movement_type: MovementType) -> (r: SpeedValue)
        ensures
            r == spec_movement_type_penalty(movement_type),
    {
        match movement_type {
            MovementType::Walk => 0,
            MovementType::Swim | MovementType::Crawl | MovementType::Climb => 1,
        }
    }
}

} // verus!
