//! Rule-resolution kernel for a tabletop role-playing game.
//!
//! The crate models character attributes (abilities, skills, hit points,
//! dice), an extensible catalog of game content (races, classes, abilities,
//! skills), and the translation of a character definition into the seed
//! structures that an external battle-simulation engine consumes.

pub mod ability;
pub use self::ability::{AbilityId, AbilityScore};

pub mod error;
pub use self::error::{SRDError, SRDResult};

pub mod character;
pub use self::character::{Character, CharacterId, ClassId, ClassModel, Level, RaceId};

pub mod compendium;
pub use self::compendium::{
    compendium, init_srd_compendium, set_compendium, CompendiumRegistry, StandardCompendium,
};

pub mod dice;
pub use self::dice::{Dice, DicePool, DiceRoll, DiceRolls, Die};

pub mod hit_points;
pub use self::hit_points::{HitDice, HitPoints, HitPointsHistory};

pub mod rules;
pub use self::rules::SRDRulesVersion;

pub mod speed;
pub use self::speed::Speed;

pub mod proficiency;
pub use self::proficiency::{Proficiency, ProficiencyBonus};

pub mod skill;
pub use self::skill::SkillId;

pub mod util;

pub mod value;
pub use self::value::PositiveBoundedValue;
