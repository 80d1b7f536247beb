use srd::ability::{
    srd_ability_string, AbilityId, AbilityScore, ABILITY_SCORE_MAX, ABILITY_SCORE_MIN,
};
use srd::error::SRDError;

#[test]
fn ability_score_new_has_bounds() {
    assert!(AbilityScore::new(3).is_ok());
    assert!(AbilityScore::new(ABILITY_SCORE_MIN - 1).is_err());
    assert!(AbilityScore::new(ABILITY_SCORE_MAX + 1).is_err());
}

#[test]
fn ability_score_capped_respects_bounds() {
    assert_eq!(
        AbilityScore::capped(ABILITY_SCORE_MIN - 1).value(),
        ABILITY_SCORE_MIN
    );
    assert_eq!(
        AbilityScore::capped(ABILITY_SCORE_MAX + 1).value(),
        ABILITY_SCORE_MAX
    );
}

#[test]
fn ability_score_add_respects_bounds() {
    let mut ability = AbilityScore::capped(3);
    ability.add(ABILITY_SCORE_MAX);
    assert_eq!(ability.value(), ABILITY_SCORE_MAX);
}

#[test]
fn ability_score_subtract_respects_bounds() {
    let mut ability = AbilityScore::capped(3);
    ability.subtract(ABILITY_SCORE_MAX);
    assert_eq!(ability.value(), ABILITY_SCORE_MIN);
}

#[test]
fn ability_score_set_has_bounds() {
    let mut ability = AbilityScore::capped(3);
    assert!(ability.set_value(ABILITY_SCORE_MIN - 1).is_err());
    assert!(ability.set_value(ABILITY_SCORE_MAX + 1).is_err());
    assert!(ability.set_value(2).is_ok());
    assert_eq!(ability.value(), 2);
}

#[test]
fn ability_score_modifier() {
    assert_eq!(AbilityScore::capped(1).modifier(), -5);
    assert_eq!(AbilityScore::capped(4).modifier(), -3);
    assert_eq!(AbilityScore::capped(9).modifier(), -1);
    assert_eq!(AbilityScore::capped(10).modifier(), 0);
    assert_eq!(AbilityScore::capped(15).modifier(), 2);
    assert_eq!(AbilityScore::capped(24).modifier(), 7);
    assert_eq!(AbilityScore::capped(30).modifier(), 10);
}

#[test]
fn ability_score_new_reports_invalid_value() {
    assert_eq!(
        AbilityScore::new(0).err(),
        Some(SRDError::InvalidAbilityScore(0))
    );
    assert_eq!(
        AbilityScore::new(31).err(),
        Some(SRDError::InvalidAbilityScore(31))
    );
}

#[test]
fn ability_string_for_srd_and_custom_ids() {
    assert_eq!(srd_ability_string(AbilityId(0)), "strength");
    assert_eq!(srd_ability_string(AbilityId(2)), "constitution");
    assert_eq!(srd_ability_string(AbilityId(5)), "charisma");
    assert_eq!(srd_ability_string(AbilityId(7)), "7");
    assert_eq!(srd_ability_string(AbilityId(42)), "42");
    assert_eq!(srd_ability_string(AbilityId(207)), "207");
}
