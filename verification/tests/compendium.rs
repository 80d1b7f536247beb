use srd::ability::{AbilityId, AbilityScore, DEXTERITY, RESERVED_ABILITIES, STRENGTH};
use srd::character::class::fighter::FIGHTER;
use srd::character::class::{ClassId, ClassModel};
use srd::character::race::generic_model::GenericRaceModel;
use srd::character::race::hill_dwarf::HILL_DWARF;
use srd::character::race::RaceId;
use srd::compendium::{compendium, init_srd_compendium, set_compendium, CompendiumRegistry};
use srd::dice::{Dice, Die};
use srd::error::SRDError;
use srd::rules::size::CreatureSize;
use srd::skill::{SkillId, ACROBATICS, RESERVED_SKILLS};
use srd::StandardCompendium;

#[test]
fn default_standard_compendium_is_empty() {
    let compendium = StandardCompendium::default();
    assert_eq!(compendium.abilities().len(), 0);
    assert_eq!(compendium.skills().len(), 0);
    assert_eq!(compendium.races().len(), 0);
    assert_eq!(compendium.classes().len(), 0);
}

#[test]
fn standard_compendium_has_all_core_rules() {
    let compendium = StandardCompendium::with_srd();
    assert_eq!(compendium.abilities().len(), RESERVED_ABILITIES.into());
    assert_eq!(compendium.skills().len(), RESERVED_SKILLS.into());
}

#[test]
fn standard_compendium_returns_correct_associated_ability() {
    let compendium = StandardCompendium::with_srd();
    assert_eq!(
        compendium.associated_ability(&SkillId(ACROBATICS)),
        Some(&AbilityId(DEXTERITY))
    );
    assert_eq!(
        compendium.associated_ability(&SkillId(RESERVED_SKILLS + 1)),
        None
    );
}

#[test]
fn standard_compendium_returns_correct_race_model() {
    let compendium = StandardCompendium::with_srd();
    assert!(compendium.race_model(&RaceId::from_str(HILL_DWARF)).is_some());
    assert!(compendium.race_model(&RaceId::from_str("test")).is_none());
}

#[test]
fn standard_compendium_returns_correct_class_model() {
    let compendium = StandardCompendium::with_srd();
    assert!(compendium.class_model(&ClassId::from_str(FIGHTER)).is_some());
    assert!(compendium.class_model(&ClassId::from_str("test")).is_none());
}

#[test]
fn set_compendium_succeeds_exactly_once() {
    let mut registry = CompendiumRegistry::new();
    assert_eq!(compendium(&registry).abilities().len(), 0);
    assert!(set_compendium(&mut registry, StandardCompendium::with_srd()).is_ok());
    assert_eq!(
        set_compendium(&mut registry, StandardCompendium::default()).err(),
        Some(SRDError::SetCompendiumError)
    );
    assert_eq!(
        set_compendium(&mut registry, StandardCompendium::with_srd()).err(),
        Some(SRDError::SetCompendiumError)
    );
    assert_eq!(
        compendium(&registry).abilities().len(),
        usize::from(RESERVED_ABILITIES)
    );
}

#[test]
fn uninitialized_registry_reads_an_empty_world() {
    let registry = CompendiumRegistry::new();
    let catalog = compendium(&registry);
    assert_eq!(catalog.abilities().len(), 0);
    assert!(catalog.race_model(&RaceId::from_str(HILL_DWARF)).is_none());
    assert!(catalog.class_model(&ClassId::from_str(FIGHTER)).is_none());
}

#[test]
fn init_srd_compendium_installs_the_full_catalog() {
    let mut registry = CompendiumRegistry::new();
    init_srd_compendium(&mut registry);
    let catalog = compendium(&registry);
    assert_eq!(catalog.abilities().len(), usize::from(RESERVED_ABILITIES));
    assert_eq!(catalog.skills().len(), usize::from(RESERVED_SKILLS));
    assert_eq!(catalog.races().len(), 1);
    assert_eq!(catalog.classes().len(), 1);
    assert_eq!(catalog.version(), 0);
}

#[test]
fn registering_an_id_again_replaces_its_entry() {
    let mut compendium = StandardCompendium::default();
    compendium.add_ability(AbilityId(STRENGTH));
    compendium.add_ability(AbilityId(STRENGTH));
    assert_eq!(compendium.abilities().len(), 1);
    compendium.add_skill(SkillId(ACROBATICS), AbilityId(STRENGTH));
    compendium.add_skill(SkillId(ACROBATICS), AbilityId(DEXTERITY));
    assert_eq!(compendium.skills().len(), 1);
    assert_eq!(
        compendium.associated_ability(&SkillId(ACROBATICS)),
        Some(&AbilityId(DEXTERITY))
    );
    let mut model = GenericRaceModel::new(CreatureSize::Small);
    model.add_ability_score_increase(AbilityId(STRENGTH), AbilityScore::capped(1));
    compendium.add_race(RaceId::from_str("gnome"), GenericRaceModel::new(CreatureSize::Tiny));
    compendium.add_race(RaceId::from_str("gnome"), model);
    assert_eq!(compendium.races().len(), 1);
    assert_eq!(
        compendium
            .race_model(&RaceId::from_str("gnome"))
            .unwrap()
            .size(),
        CreatureSize::Small
    );
    compendium.add_class(ClassId::from_str("wizard"), ClassModel::new(Dice::new(1, Die::D6)));
    compendium.add_class(ClassId::from_str("wizard"), ClassModel::new(Dice::new(1, Die::D8)));
    assert_eq!(compendium.classes().len(), 1);
    assert_eq!(
        compendium
            .class_model(&ClassId::from_str("wizard"))
            .unwrap()
            .hit_points_at_1st_level(),
        8
    );
}

#[test]
fn compendium_version_can_be_set_before_installation() {
    let mut compendium = StandardCompendium::default();
    assert_eq!(compendium.version(), 0);
    compendium.set_version(3);
    assert_eq!(compendium.version(), 3);
}
