//! Statistics of creatures.

use crate::ability::{spec_ability_capped, AbilityId, AbilityScore};
use crate::character::class::ClassId;
use crate::character::level::Level;
use crate::character::race::RaceId;
use crate::error::{SRDError, SRDResult};
use crate::hit_points::HitPoints;
use crate::proficiency::{Proficiency, ProficiencyBonus};
use crate::rules::size::CreatureSize;
use crate::skill::SkillId;
use crate::value::spec_bounded;
use vstd::prelude::*;

verus! {

/// Uniquely identifies a `Statistic`.
#[derive(Debug, Clone, Copy, PartialEq, Hash, Eq, Structural)]
pub enum StatisticId {
    /// The creature's race.
    Race,
    /// The creature's class.
    Class,
    /// The creature's level.
    Level,
    /// The creature's hit points.
    HitPoints,
    /// The creature's size.
    Size,
    /// One ability score of the creature.
    Ability(AbilityId),
    /// One skill proficiency of the creature.
    Skill(SkillId),
    /// The creature's proficiency bonus.
    ProficiencyBonus,
}

/// Encapsulates the actual value of a statistic.
#[derive(Debug, Clone)]
pub enum StatisticValue {
    /// The creature's race.
    Race(RaceId),
    /// The creature's class.
    Class(ClassId),
    /// The creature's level.
    Level(Level),
    /// The creature's hit points.
    HitPoints(HitPoints),
    /// The creature's size.
    Size(CreatureSize),
    /// One ability score of the creature.
    Ability(AbilityScore),
    /// One skill proficiency of the creature.
    Skill(Proficiency),
    /// The creature's proficiency bonus.
    ProficiencyBonus(ProficiencyBonus),
}

/// Relates a statistic value to the value after one change has been
/// applied to it: a change mutates a value of its own kind through the
/// saturating arithmetic of the bounded numeric types, and leaves a value
/// of any other kind untouched.
pub open spec fn spec_change_applied(
    pre: StatisticValue,
    change: StatisticChange,
    post: StatisticValue,
) -> bool {
    match change {
        StatisticChange::HitPoints(delta) => match pre {
            StatisticValue::HitPoints(hp) => post matches StatisticValue::HitPoints(hp2)
                && hp2.spec_max() == hp.spec_max() && hp2.spec_value() == spec_bounded(
                hp.spec_value() + delta,
                hp.spec_max() as int,
            ),
            _ => post == pre,
        },
        StatisticChange::Ability(_, delta) => match pre {
            StatisticValue::Ability(score) => post matches StatisticValue::Ability(score2)
                && score2.spec_value() == spec_ability_capped(score.spec_value() + delta),
            _ => post == pre,
        },
    }
}

impl StatisticValue {
    /// Applies a change on this value. The change has an effect only if
    /// its kind matches the value's kind; otherwise the value stays as it
    /// is.
    pub fn apply_change(&mut self, change: &StatisticChange)
        ensures
            spec_change_applied(*old(self), *change, *final(self)),
    {
        let updated: Option<StatisticValue> = match (&*self, change) {
            (StatisticValue::HitPoints(hp), StatisticChange::HitPoints(delta)) => {
                let mut new_hp = *hp;
                if *delta > 0 {
                    new_hp.add(*delta as i64);
                } else {
                    new_hp.subtract(-(*delta as i64));
                }
                Some(StatisticValue::HitPoints(new_hp))
            },
            (StatisticValue::Ability(score), StatisticChange::Ability(_, delta)) => {
                let mut new_score = *score;
                if *delta > 0 {
                    new_score.add(*delta as u8);
                } else {
                    new_score.subtract((-(*delta as i16)) as u8);
                }
                Some(StatisticValue::Ability(new_score))
            },
            _ => None,
        };
        if let Some(value) = updated {
            *self = value;
        }
    }
}

/// A statistic represents a specific property of a creature.
/// Statistics are identified by an id and can contain different kinds of
/// values.
#[derive(Debug, Clone)]
pub struct Statistic {
    id: StatisticId,
    value: StatisticValue,
}

impl Statistic {
    /// The statistic's id.
    pub closed spec fn spec_id(self) -> StatisticId {
        self.id
    }

    /// The statistic's value.
    pub closed spec fn spec_value(self) -> StatisticValue {
        self.value
    }

    /// Returns the race if this statistic holds one, otherwise an error.
    pub fn race(&self) -> (r: SRDResult<&RaceId>)
        ensures
            self.spec_value() matches StatisticValue::Race(x) ==> (r matches Ok(v) && *v == x),
            !(self.spec_value() is Race) ==> r == Err::<&RaceId, SRDError>(
                SRDError::IncorrectVariant,
            ),
    {
        if let StatisticValue::Race(value) = &self.value {
            Ok(value)
        } else {
            Err(SRDError::IncorrectVariant)
        }
    }

    /// Returns the class if this statistic holds one, otherwise an error.
    pub fn class(&self) -> (r: SRDResult<&ClassId>)
        ensures
            self.spec_value() matches StatisticValue::Class(x) ==> (r matches Ok(v) && *v == x),
            !(self.spec_value() is Class) ==> r == Err::<&ClassId, SRDError>(
                SRDError::IncorrectVariant,
            ),
    {
        if let StatisticValue::Class(value) = &self.value {
            Ok(value)
        } else {
            Err(SRDError::IncorrectVariant)
        }
    }

    /// Returns the level if this statistic holds one, otherwise an error.
    pub fn level(&self) -> (r: SRDResult<&Level>)
        ensures
            self.spec_value() matches StatisticValue::Level(x) ==> (r matches Ok(v) && *v == x),
            !(self.spec_value() is Level) ==> r == Err::<&Level, SRDError>(
                SRDError::IncorrectVariant,
            ),
    {
        if let StatisticValue::Level(value) = &self.value {
            Ok(value)
        } else {
            Err(SRDError::IncorrectVariant)
        }
    }

    /// Returns the hit points if this statistic holds them, otherwise an
    /// error.
    pub fn hit_points(&self) -> (r: SRDResult<&HitPoints>)
        ensures
            self.spec_value() matches StatisticValue::HitPoints(x) ==> (r matches Ok(v) && *v
                == x),
            !(self.spec_value() is HitPoints) ==> r == Err::<&HitPoints, SRDError>(
                SRDError::IncorrectVariant,
            ),
    {
        if let StatisticValue::HitPoints(value) = &self.value {
            Ok(value)
        } else {
            Err(SRDError::IncorrectVariant)
        }
    }

    /// Returns the size if this statistic holds one, otherwise an error.
    pub fn size(&self) -> (r: SRDResult<&CreatureSize>)
        ensures
            self.spec_value() matches StatisticValue::Size(x) ==> (r matches Ok(v) && *v == x),
            !(self.spec_value() is Size) ==> r == Err::<&CreatureSize, SRDError>(
                SRDError::IncorrectVariant,
            ),
    {
        if let StatisticValue::Size(value) = &self.value {
            Ok(value)
        } else {
            Err(SRDError::IncorrectVariant)
        }
    }

    /// Returns the ability score if this statistic holds one, otherwise
    /// an error.
    pub fn ability(&self) -> (r: SRDResult<&AbilityScore>)
        ensures
            self.spec_value() matches StatisticValue::Ability(x) ==> (r matches Ok(v) && *v == x),
            !(self.spec_value() is Ability) ==> r == Err::<&AbilityScore, SRDError>(
                SRDError::IncorrectVariant,
            ),
    {
        if let StatisticValue::Ability(value) = &self.value {
            Ok(value)
        } else {
            Err(SRDError::IncorrectVariant)
        }
    }

    /// Returns the skill proficiency if this statistic holds one,
    /// otherwise an error.
    pub fn skill(&self) -> (r: SRDResult<&Proficiency>)
        ensures
            self.spec_value() matches StatisticValue::Skill(x) ==> (r matches Ok(v) && *v == x),
            !(self.spec_value() is Skill) ==> r == Err::<&Proficiency, SRDError>(
                SRDError::IncorrectVariant,
            ),
    {
        if let StatisticValue::Skill(value) = &self.value {
            Ok(value)
        } else {
            Err(SRDError::IncorrectVariant)
        }
    }

    /// Returns the proficiency bonus if this statistic holds one,
    /// otherwise an error.
    pub fn proficiency_bonus(&self) -> (r: SRDResult<&ProficiencyBonus>)
        ensures
            self.spec_value() matches StatisticValue::ProficiencyBonus(x) ==> (r matches Ok(v)
                && *v == x),
            !(self.spec_value() is ProficiencyBonus) ==> r == Err::<&ProficiencyBonus, SRDError>(
                SRDError::IncorrectVariant,
            ),
    {
        if let StatisticValue::ProficiencyBonus(value) = &self.value {
            Ok(value)
        } else {
            Err(SRDError::IncorrectVariant)
        }
    }

    /// Applies a change on this statistic. The change will have an effect
    /// only if its kind matches the statistic's one.
    pub fn apply_change(&mut self, change: &StatisticChange)
        ensures
            final(self).spec_id() == old(self).spec_id(),
            spec_change_applied(old(self).spec_value(), *change, final(self).spec_value()),
    {
        self.value.apply_change(change);
    }

    /// Returns the statistic's id.
    pub fn id(&self) -> (r: &StatisticId)
        ensures
            *r == self.spec_id(),
    {
        &self.id
    }
}

/// The statistic id that an initializer variant creates.
pub open spec fn spec_initializer_id(item: StatisticInitializer) -> StatisticId {
    match item {
        StatisticInitializer::Race(value) => StatisticId::Race,
        StatisticInitializer::Class(value) => StatisticId::Class,
        StatisticInitializer::Level(value) => StatisticId::Level,
        StatisticInitializer::HitPoints(value) => StatisticId::HitPoints,
        StatisticInitializer::Size(value) => StatisticId::Size,
        StatisticInitializer::Ability(id, value) => StatisticId::Ability(id),
        StatisticInitializer::Skill(id, value) => StatisticId::Skill(id),
        StatisticInitializer::ProficiencyBonus(value) => StatisticId::ProficiencyBonus,
    }
}

/// The statistic value that an initializer variant carries.
pub open spec fn spec_initializer_value(item: StatisticInitializer) -> StatisticValue {
    match item {
        StatisticInitializer::Race(value) => StatisticValue::Race(value),
        StatisticInitializer::Class(value) => StatisticValue::Class(value),
        StatisticInitializer::Level(value) => StatisticValue::Level(value),
        StatisticInitializer::HitPoints(value) => StatisticValue::HitPoints(value),
        StatisticInitializer::Size(value) => StatisticValue::Size(value),
        StatisticInitializer::Ability(id, value) => StatisticValue::Ability(value),
        StatisticInitializer::Skill(id, value) => StatisticValue::Skill(value),
        StatisticInitializer::ProficiencyBonus(value) => StatisticValue::ProficiencyBonus(value),
    }
}

impl From<StatisticInitializer> for Statistic {
    /// Each initializer variant creates the statistic with the matching
    /// id, carrying the initializer's value.
    fn from(item: StatisticInitializer) -> (r: Self)
        ensures
            r.spec_id() == spec_initializer_id(item),
            r.spec_value() == spec_initializer_value(item),
    {
        match item {
            StatisticInitializer::Race(value) => Self {
                id: StatisticId::Race,
                value: StatisticValue::Race(value),
            },
            StatisticInitializer::Class(value) => Self {
                id: StatisticId::Class,
                value: StatisticValue::Class(value),
            },
            StatisticInitializer::Level(value) => Self {
                id: StatisticId::Level,
                value: StatisticValue::Level(value),
            },
            StatisticInitializer::HitPoints(value) => Self {
                id: StatisticId::HitPoints,
                value: StatisticValue::HitPoints(value),
            },
            StatisticInitializer::Size(value) => Self {
                id: StatisticId::Size,
                value: StatisticValue::Size(value),
            },
            StatisticInitializer::Ability(id, value) => Self {
                id: StatisticId::Ability(id),
                value: StatisticValue::Ability(value),
            },
            StatisticInitializer::Skill(id, value) => Self {
                id: StatisticId::Skill(id),
                value: StatisticValue::Skill(value),
            },
            StatisticInitializer::ProficiencyBonus(value) => Self {
                id: StatisticId::ProficiencyBonus,
                value: StatisticValue::ProficiencyBonus(value),
            },
        }
    }
}

impl vstd::std_specs::convert::FromSpecImpl<StatisticInitializer> for Statistic {
    open spec fn obeys_from_spec() -> bool {
        true
    }

    closed spec fn from_spec(item: StatisticInitializer) -> Self {
        match item {
            StatisticInitializer::Race(value) => Statistic {
                id: StatisticId::Race,
                value: StatisticValue::Race(value),
            },
            StatisticInitializer::Class(value) => Statistic {
                id: StatisticId::Class,
                value: StatisticValue::Class(value),
            },
            StatisticInitializer::Level(value) => Statistic {
                id: StatisticId::Level,
                value: StatisticValue::Level(value),
            },
            StatisticInitializer::HitPoints(value) => Statistic {
                id: StatisticId::HitPoints,
                value: StatisticValue::HitPoints(value),
            },
            StatisticInitializer::Size(value) => Statistic {
                id: StatisticId::Size,
                value: StatisticValue::Size(value),
            },
            StatisticInitializer::Ability(id, value) => Statistic {
                id: StatisticId::Ability(id),
                value: StatisticValue::Ability(value),
            },
            StatisticInitializer::Skill(id, value) => Statistic {
                id: StatisticId::Skill(id),
                value: StatisticValue::Skill(value),
            },
            StatisticInitializer::ProficiencyBonus(value) => Statistic {
                id: StatisticId::ProficiencyBonus,
                value: StatisticValue::ProficiencyBonus(value),
            },
        }
    }
}

/// Initializer to create a statistic.
#[derive(Debug, Clone)]
pub enum StatisticInitializer {
    /// Creates the race statistic.
    Race(RaceId),
    /// Creates the class statistic.
    Class(ClassId),
    /// Creates the level statistic.
    Level(Level),
    /// Creates the hit-points statistic.
    HitPoints(HitPoints),
    /// Creates the size statistic.
    Size(CreatureSize),
    /// Creates one ability-score statistic.
    Ability(AbilityId, AbilityScore),
    /// Creates one skill-proficiency statistic.
    Skill(SkillId, Proficiency),
    /// Creates the proficiency-bonus statistic.
    ProficiencyBonus(ProficiencyBonus),
}

/// `StatisticsSeed` is used to generate all statistics of a creature.
#[derive(Debug, Clone)]
pub struct StatisticsSeed {
    /// A simple list of statistic initializers.
    pub statistics: Vec<StatisticInitializer>,
}

impl Default for StatisticsSeed {
    /// Constructs a seed with no statistics.
    fn default() -> (r: Self)
        ensures
            r.statistics@ =~= Seq::<StatisticInitializer>::empty(),
    {
        Self { statistics: Vec::new() }
    }
}

/// Encapsulates a change to a statistic.
#[derive(Debug, Clone, Copy, PartialEq, Eq, Structural)]
pub enum StatisticChange {
    /// A numeric change to hit points.
    HitPoints(i16),
    /// A numeric change to an ability score.
    Ability(AbilityId, i8),
}

} // verus!
