//! Errors returned by the kernel.

use crate::character::class::ClassId;
use crate::character::race::RaceId;
use crate::rules::statistic::StatisticId;
use vstd::prelude::*;

verus! {

/// All errors that the kernel's fallible operations can return.
#[derive(Debug, Clone, PartialEq)]
pub enum SRDError {
    /// The given value is not a legal ability score.
    InvalidAbilityScore(u8),
    /// The given value is not a legal character level.
    InvalidLevel(u8),
    /// A value failed a validation check; the payload explains why.
    InvalidArgument(String),
    /// The named class is not registered in the compendium.
    ClassNotFound(ClassId),
    /// The named race is not registered in the compendium.
    RaceNotFound(RaceId),
    /// The creature has no statistic under the given id.
    StatisticNotFound(StatisticId),
    /// The hit-point history already holds one roll per possible level.
    MaxLevelReached,
    /// A compendium has already been installed in the registry.
    SetCompendiumError,
    /// A typed accessor was used on a value of a different variant.
    IncorrectVariant,
}

/// Result type used by all fallible operations of the kernel.
pub type SRDResult<T> = Result<T, SRDError>;

} // verus!
