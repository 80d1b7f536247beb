use srd::ability::{AbilityId, AbilityScore, CONSTITUTION, WISDOM};
use srd::character::race::dwarf::dwarf_model;
use srd::character::race::generic_model::GenericRaceModel;
use srd::character::race::hill_dwarf::hill_dwarf_model;
use srd::rules::size::CreatureSize;

#[test]
fn generic_model_new() {
    let mut model = GenericRaceModel::new(CreatureSize::Medium);
    model.add_ability_score_increase(AbilityId(0), AbilityScore::capped(1));
    model.add_ability_score_increase(AbilityId(2), AbilityScore::capped(2));
    assert_eq!(model.ability_score_increases().len(), 2);
    assert_eq!(model.size(), CreatureSize::Medium);
}

#[test]
fn dwarves_are_sturdy_medium_creatures() {
    let dwarf = dwarf_model();
    assert_eq!(dwarf.size(), CreatureSize::Medium);
    assert_eq!(
        dwarf.ability_score_increases().as_slice(),
        &[(AbilityId(CONSTITUTION), AbilityScore::capped(2))]
    );
    let hill_dwarf = hill_dwarf_model();
    assert_eq!(
        hill_dwarf.ability_score_increases().as_slice(),
        &[
            (AbilityId(CONSTITUTION), AbilityScore::capped(2)),
            (AbilityId(WISDOM), AbilityScore::capped(1)),
        ]
    );
}
