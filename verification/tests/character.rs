use srd::ability::{AbilityId, AbilityScore, CONSTITUTION, RESERVED_ABILITIES, STRENGTH, WISDOM};
use srd::character::class::fighter::FIGHTER;
use srd::character::class::{ClassId, ClassModel};
use srd::character::race::generic_model::GenericRaceModel;
use srd::character::race::hill_dwarf::HILL_DWARF;
use srd::character::race::RaceId;
use srd::character::{Character, CharacterId};
use srd::compendium::{init_srd_compendium, set_compendium, CompendiumRegistry};
use srd::dice::{Dice, Die};
use srd::error::SRDError;
use srd::rules::size::CreatureSize;
use srd::skill::RESERVED_SKILLS;
use srd::StandardCompendium;

fn srd_registry() -> CompendiumRegistry {
    let mut registry = CompendiumRegistry::new();
    init_srd_compendium(&mut registry);
    registry
}

/// A registry holding one d10 class and one race with no ability-score
/// increases at all.
fn plain_registry() -> CompendiumRegistry {
    let mut compendium = StandardCompendium::with_srd();
    compendium.add_race(
        RaceId::from_str("human"),
        GenericRaceModel::new(CreatureSize::Medium),
    );
    let mut registry = CompendiumRegistry::new();
    set_compendium(&mut registry, compendium).unwrap();
    registry
}

#[test]
fn character_equality() {
    let registry = srd_registry();
    let c1 = Character::new(
        &registry,
        CharacterId::from_str("one"),
        RaceId::from_str(HILL_DWARF),
        ClassId::from_str(FIGHTER),
    )
    .unwrap();
    let c2 = Character::new(
        &registry,
        CharacterId::from_str("two"),
        RaceId::from_str(HILL_DWARF),
        ClassId::from_str(FIGHTER),
    )
    .unwrap();
    assert_ne!(c1, c2);
    let mut c3 = Character::new(
        &registry,
        CharacterId::from_str("one"),
        RaceId::from_str(HILL_DWARF),
        ClassId::from_str(FIGHTER),
    )
    .unwrap();
    c3.add_skill(1.into(), true.into());
    assert_eq!(c1, c3);
}

#[test]
fn character_has_default_abilities_skills() {
    let registry = srd_registry();
    let c = Character::new(
        &registry,
        CharacterId::from_str("one"),
        RaceId::from_str(HILL_DWARF),
        ClassId::from_str(FIGHTER),
    )
    .unwrap();
    assert_eq!(*c.id(), CharacterId::from_str("one"));
    assert_eq!(*c.race(), RaceId::from_str(HILL_DWARF));
    assert_eq!(*c.class(), ClassId::from_str(FIGHTER));
    assert_eq!(c.abilities(&registry).len(), RESERVED_ABILITIES.into());
    assert_eq!(c.skills().len(), RESERVED_SKILLS.into());
}

#[test]
fn hit_points_calculation() {
    let registry = srd_registry();
    let mut c = Character::new(
        &registry,
        CharacterId::from_str("one"),
        RaceId::from_str(HILL_DWARF),
        ClassId::from_str(FIGHTER),
    )
    .unwrap();
    assert_eq!(c.hit_points().value(), 11);
    c.add_ability(&registry, AbilityId(CONSTITUTION), AbilityScore::capped(20));
    assert_eq!(c.hit_points().value(), 16);
}

#[test]
fn character_creation_validates_race_and_class() {
    let registry = srd_registry();
    let missing_class = Character::new(
        &registry,
        CharacterId::from_str("one"),
        RaceId::from_str(HILL_DWARF),
        ClassId::from_str("sage"),
    );
    assert!(matches!(missing_class, Err(SRDError::ClassNotFound(_))));
    let missing_race = Character::new(
        &registry,
        CharacterId::from_str("one"),
        RaceId::from_str("sprite"),
        ClassId::from_str(FIGHTER),
    );
    assert!(matches!(missing_race, Err(SRDError::RaceNotFound(_))));
}

#[test]
fn hit_points_without_constitution_bonus_are_the_die_maximum() {
    let registry = plain_registry();
    let mut c = Character::new(
        &registry,
        CharacterId::from_str("one"),
        RaceId::from_str("human"),
        ClassId::from_str(FIGHTER),
    )
    .unwrap();
    assert_eq!(c.hit_points().value(), 10);
    c.add_ability(&registry, AbilityId(CONSTITUTION), AbilityScore::capped(20));
    assert_eq!(c.hit_points().value(), 15);
}

#[test]
fn effective_abilities_apply_race_bonuses_at_read_time() {
    let registry = srd_registry();
    let c = Character::new(
        &registry,
        CharacterId::from_str("one"),
        RaceId::from_str(HILL_DWARF),
        ClassId::from_str(FIGHTER),
    )
    .unwrap();
    let raw: Vec<(AbilityId, AbilityScore)> = c.raw_abilities().clone();
    let effective = c.abilities(&registry);
    for (id, score) in raw {
        assert_eq!(score.value(), 10);
        let (_, effective_score) = effective
            .iter()
            .find(|(effective_id, _)| *effective_id == id)
            .unwrap();
        if id == AbilityId(CONSTITUTION) {
            assert_eq!(effective_score.value(), 12);
        } else if id == AbilityId(WISDOM) {
            assert_eq!(effective_score.value(), 11);
        } else {
            assert_eq!(effective_score.value(), 10);
        }
    }
}

#[test]
fn added_abilities_replace_the_stored_score() {
    let registry = srd_registry();
    let mut c = Character::new(
        &registry,
        CharacterId::from_str("one"),
        RaceId::from_str(HILL_DWARF),
        ClassId::from_str(FIGHTER),
    )
    .unwrap();
    c.add_ability(&registry, AbilityId(STRENGTH), AbilityScore::capped(18));
    c.add_ability(&registry, AbilityId(STRENGTH), AbilityScore::capped(14));
    assert_eq!(c.raw_abilities().len(), usize::from(RESERVED_ABILITIES));
    let strength = c
        .raw_abilities()
        .iter()
        .find(|(id, _)| *id == AbilityId(STRENGTH))
        .unwrap()
        .1;
    assert_eq!(strength.value(), 14);
}

#[test]
fn level_one_character_holds_one_hit_point_roll() {
    let registry = plain_registry();
    let c = Character::new(
        &registry,
        CharacterId::from_str("one"),
        RaceId::from_str("human"),
        ClassId::from_str("wizard"),
    );
    assert!(matches!(c, Err(SRDError::ClassNotFound(_))));
    let mut compendium = StandardCompendium::with_srd();
    compendium.add_class(ClassId::from_str("wizard"), ClassModel::new(Dice::new(1, Die::D6)));
    let mut registry = CompendiumRegistry::new();
    set_compendium(&mut registry, compendium).unwrap();
    let c = Character::new(
        &registry,
        CharacterId::from_str("one"),
        RaceId::from_str(HILL_DWARF),
        ClassId::from_str("wizard"),
    )
    .unwrap();
    assert_eq!(c.level().value(), 1);
    assert_eq!(c.hit_points().value(), 7);
}
