use srd::ability::{AbilityId, AbilityScore, CONSTITUTION, DEXTERITY, RESERVED_ABILITIES, STRENGTH};
use srd::character::class::fighter::FIGHTER;
use srd::character::class::ClassId;
use srd::character::race::hill_dwarf::HILL_DWARF;
use srd::character::race::RaceId;
use srd::character::spawn::CharacterSpawner;
use srd::character::{Character, CharacterId};
use srd::compendium::{init_srd_compendium, CompendiumRegistry};
use srd::proficiency::Proficiency;
use srd::rules::action::ActionInitializer;
use srd::rules::size::CreatureSize;
use srd::rules::statistic::StatisticInitializer;
use srd::skill::{SkillId, ACROBATICS, RESERVED_SKILLS, STEALTH};

fn srd_registry() -> CompendiumRegistry {
    let mut registry = CompendiumRegistry::new();
    init_srd_compendium(&mut registry);
    registry
}

fn one(registry: &CompendiumRegistry) -> Character {
    Character::new(
        registry,
        CharacterId::from_str("one"),
        RaceId::from_str(HILL_DWARF),
        ClassId::from_str(FIGHTER),
    )
    .unwrap()
}

fn seed_ability(entries: &[StatisticInitializer], wanted: AbilityId) -> Option<AbilityScore> {
    entries.iter().find_map(|entry| match entry {
        StatisticInitializer::Ability(id, score) if *id == wanted => Some(*score),
        _ => None,
    })
}

fn seed_skill(entries: &[StatisticInitializer], wanted: SkillId) -> Option<Proficiency> {
    entries.iter().find_map(|entry| match entry {
        StatisticInitializer::Skill(id, proficiency) if *id == wanted => Some(*proficiency),
        _ => None,
    })
}

#[test]
fn character_has_all_statistics() {
    const ESSENTIAL_STATISTICS_COUNT: u8 = 6;
    let registry = srd_registry();
    let character = one(&registry);
    let seed = CharacterSpawner::new(&character)
        .build_statistics(&registry)
        .unwrap();
    let expected_statistics: usize =
        (RESERVED_ABILITIES + RESERVED_SKILLS + ESSENTIAL_STATISTICS_COUNT).into();
    assert_eq!(seed.statistics.len(), expected_statistics);
}

#[test]
fn character_has_correct_abilities() {
    let strength = 12;
    let registry = srd_registry();
    let mut character = one(&registry);
    character.add_ability(&registry, AbilityId(STRENGTH), AbilityScore::new(strength).unwrap());
    let seed = CharacterSpawner::new(&character)
        .build_statistics(&registry)
        .unwrap();
    assert_eq!(
        seed_ability(&seed.statistics, AbilityId(STRENGTH)),
        Some(AbilityScore::capped(strength))
    );
    assert_eq!(
        seed_ability(&seed.statistics, AbilityId(DEXTERITY)),
        Some(AbilityScore::capped(10))
    );
    // Racial bonuses are taken into account.
    assert_eq!(
        seed_ability(&seed.statistics, AbilityId(CONSTITUTION)),
        Some(AbilityScore::capped(12))
    );
}

#[test]
fn character_has_correct_skills() {
    let registry = srd_registry();
    let mut character = one(&registry);
    character.add_skill(SkillId(ACROBATICS), Proficiency(true));
    let seed = CharacterSpawner::new(&character)
        .build_statistics(&registry)
        .unwrap();
    assert_eq!(
        seed_skill(&seed.statistics, SkillId(ACROBATICS)),
        Some(Proficiency(true))
    );
    assert_eq!(
        seed_skill(&seed.statistics, SkillId(STEALTH)),
        Some(Proficiency(false))
    );
}

#[test]
fn character_has_default_actions() {
    let registry = srd_registry();
    let character = one(&registry);
    let seed = CharacterSpawner::new(&character).build_actions();
    assert_eq!(
        seed.actions.as_slice(),
        &[ActionInitializer::Movement, ActionInitializer::Attack]
    );
}

#[test]
fn character_has_size() {
    let registry = srd_registry();
    let character = one(&registry);
    let seed = CharacterSpawner::new(&character)
        .build_statistics(&registry)
        .unwrap();
    let size = seed.statistics.iter().find_map(|entry| match entry {
        StatisticInitializer::Size(size) => Some(*size),
        _ => None,
    });
    assert_eq!(size, Some(CreatureSize::Medium));
}

#[test]
fn base_statistics_come_in_a_fixed_order() {
    let registry = srd_registry();
    let character = one(&registry);
    let seed = CharacterSpawner::new(&character)
        .build_statistics(&registry)
        .unwrap();
    assert!(matches!(seed.statistics[0], StatisticInitializer::Race(_)));
    assert!(matches!(seed.statistics[1], StatisticInitializer::Class(_)));
    assert!(matches!(seed.statistics[2], StatisticInitializer::Level(_)));
    assert!(matches!(seed.statistics[3], StatisticInitializer::Size(_)));
    match seed.statistics[4] {
        StatisticInitializer::ProficiencyBonus(bonus) => assert_eq!(bonus.0, 2),
        _ => panic!("expected the proficiency bonus"),
    }
    match seed.statistics[5] {
        StatisticInitializer::HitPoints(hit_points) => assert_eq!(hit_points.value(), 11),
        _ => panic!("expected the hit points"),
    }
}
