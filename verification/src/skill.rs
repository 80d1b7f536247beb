//! Creatures skills.

use vstd::prelude::*;
use vstd::string::StringExecFns;

verus! {

/// Identifies a skill.
///
/// A skill represents a specific aspect of an ability score.
#[derive(Debug, Clone, Copy, PartialEq, Hash, Eq, Structural)]
pub struct SkillId(pub u8);

impl From<u8> for SkillId {
    fn from(item: u8) -> (r: Self) {
        SkillId(item)
    }
}

impl vstd::std_specs::convert::FromSpecImpl<u8> for SkillId {
    open spec fn obeys_from_spec() -> bool {
        true
    }

    open spec fn from_spec(item: u8) -> Self {
        SkillId(item)
    }
}

/// Id value of the Acrobatics skill.
pub const ACROBATICS: u8 = 0;

/// Id value of the Animal Handling skill.
pub const ANIMAL_HANDLING: u8 = 1;

/// Id value of the Arcana skill.
pub const ARCANA: u8 = 2;

/// Id value of the Athletics skill.
pub const ATHLETICS: u8 = 3;

/// Id value of the Deception skill.
pub const DECEPTION: u8 = 4;

/// Id value of the History skill.
pub const HISTORY: u8 = 5;

/// Id value of the Insight skill.
pub const INSIGHT: u8 = 6;

/// Id value of the Intimidation skill.
pub const INTIMIDATION: u8 = 7;

/// Id value of the Investigation skill.
pub const INVESTIGATION: u8 = 8;

/// Id value of the Medicine skill.
pub const MEDICINE: u8 = 9;

/// Id value of the Nature skill.
pub const NATURE: u8 = 10;

/// Id value of the Perception skill.
pub const PERCEPTION: u8 = 11;

/// Id value of the Performance skill.
pub const PERFORMANCE: u8 = 12;

/// Id value of the Persuasion skill.
pub const PERSUASION: u8 = 13;

/// Id value of the Religion skill.
pub const RELIGION: u8 = 14;

/// Id value of the Sleight of Hand skill.
pub const SLEIGHT_OF_HAND: u8 = 15;

/// Id value of the Stealth skill.
pub const STEALTH: u8 = 16;

/// Id value of the Survival skill.
pub const SURVIVAL: u8 = 17;

/// Number of core skills.
pub const RESERVED_SKILLS: u8 = 18;

/// What `srd_skill_string` returns for each skill id defined by the SRD.
pub open spec fn spec_skill_string(id: SkillId) -> Seq<char> {
    if id.0 == 0 {
        "acrobatics"@
    } else if id.0 == 1 {
        "animal handling"@
    } else if id.0 == 2 {
        "arcana"@
    } else if id.0 == 3 {
        "athletics"@
    } else if id.0 == 4 {
        "deception"@
    } else if id.0 == 5 {
        "history"@
    } else if id.0 == 6 {
        "insight"@
    } else if id.0 == 7 {
        "intimidation"@
    } else if id.0 == 8 {
        "investigation"@
    } else if id.0 == 9 {
        "medicine"@
    } else if id.0 == 10 {
        "nature"@
    } else if id.0 == 11 {
        "perception"@
    } else if id.0 == 12 {
        "performance"@
    } else if id.0 == 13 {
        "persuasion"@
    } else if id.0 == 14 {
        "religion"@
    } else if id.0 == 15 {
        "sleight of hand"@
    } else if id.0 == 16 {
        "stealth"@
    } else {
        "survival"@
    }
}

/// Returns a string representation of a `SkillId`.
///
/// Only the skills defined by the SRD have a string representation, so the
/// id must be one of them.
pub fn srd_skill_string(id: SkillId) -> (r: String)
    requires
        id.0 < RESERVED_SKILLS,
    ensures
        r@ == spec_skill_string(id),
{
    match id.0 {
        0 => String::from_str("acrobatics"),
        1 => String::from_str("animal handling"),
        2 => String::from_str("arcana"),
        3 => String::from_str("athletics"),
        4 => String::from_str("deception"),
        5 => String::from_str("history"),
        6 => String::from_str("insight"),
        7 => String::from_str("intimidation"),
        8 => String::from_str("investigation"),
        9 => String::from_str("medicine"),
        10 => String::from_str("nature"),
        11 => String::from_str("perception"),
        12 => String::from_str("performance"),
        13 => String::from_str("persuasion"),
        14 => String::from_str("religion"),
        15 => String::from_str("sleight of hand"),
        16 => String::from_str("stealth"),
        _ => String::from_str("survival"),
    }
}

} // verus!
