use srd::character::class::fighter::fighter_model;
use srd::character::class::{proficiency_bonus_at_level, ClassModel};
use srd::character::level::Level;
use srd::dice::{Dice, Die};

#[test]
fn standard_proficiency_bonus() {
    assert_eq!(proficiency_bonus_at_level(&Level::new(1).unwrap()), 2.into());
    assert_eq!(proficiency_bonus_at_level(&Level::new(2).unwrap()), 2.into());
    assert_eq!(proficiency_bonus_at_level(&Level::new(3).unwrap()), 2.into());
    assert_eq!(proficiency_bonus_at_level(&Level::new(4).unwrap()), 2.into());
    assert_eq!(proficiency_bonus_at_level(&Level::new(5).unwrap()), 3.into());
    assert_eq!(proficiency_bonus_at_level(&Level::new(6).unwrap()), 3.into());
    assert_eq!(proficiency_bonus_at_level(&Level::new(7).unwrap()), 3.into());
    assert_eq!(proficiency_bonus_at_level(&Level::new(8).unwrap()), 3.into());
    assert_eq!(proficiency_bonus_at_level(&Level::new(9).unwrap()), 4.into());
    assert_eq!(proficiency_bonus_at_level(&Level::new(10).unwrap()), 4.into());
    assert_eq!(proficiency_bonus_at_level(&Level::new(11).unwrap()), 4.into());
    assert_eq!(proficiency_bonus_at_level(&Level::new(12).unwrap()), 4.into());
    assert_eq!(proficiency_bonus_at_level(&Level::new(13).unwrap()), 5.into());
    assert_eq!(proficiency_bonus_at_level(&Level::new(14).unwrap()), 5.into());
    assert_eq!(proficiency_bonus_at_level(&Level::new(15).unwrap()), 5.into());
    assert_eq!(proficiency_bonus_at_level(&Level::new(16).unwrap()), 5.into());
    assert_eq!(proficiency_bonus_at_level(&Level::new(17).unwrap()), 6.into());
    assert_eq!(proficiency_bonus_at_level(&Level::new(18).unwrap()), 6.into());
    assert_eq!(proficiency_bonus_at_level(&Level::new(19).unwrap()), 6.into());
    assert_eq!(proficiency_bonus_at_level(&Level::new(20).unwrap()), 6.into());
}

#[test]
fn class_model_first_level_hit_points_are_the_die_maximum() {
    let model = ClassModel::new(Dice::new(1, Die::D10));
    assert_eq!(model.hit_points_at_1st_level(), 10);
    let model = ClassModel::new(Dice::new(1, Die::D6));
    assert_eq!(model.hit_points_at_1st_level(), 6);
}

#[test]
fn fighter_fights_with_a_d10() {
    let model = fighter_model();
    assert_eq!(model.hit_dice(), Dice::new(1, Die::D10));
    assert_eq!(model.hit_points_at_1st_level(), 10);
}
