use srd::ability::{AbilityId, AbilityScore};
use srd::error::SRDError;
use srd::hit_points::HitPoints;
use srd::rules::statistic::{Statistic, StatisticChange, StatisticId, StatisticInitializer};

#[test]
fn create_statistic() {
    let stat: Statistic = StatisticInitializer::HitPoints(HitPoints::from_value(10)).into();
    assert_eq!(stat.hit_points().unwrap().value(), 10);
}

#[test]
fn change_statistic() {
    let mut stat: Statistic = StatisticInitializer::HitPoints(HitPoints::from_value(10)).into();
    assert_eq!(stat.hit_points().unwrap().value(), 10);
    stat.apply_change(&StatisticChange::HitPoints(-4));
    assert_eq!(stat.hit_points().unwrap().value(), 6);
}

#[test]
fn statistic_create_statistic() {
    let stat: Statistic = StatisticInitializer::HitPoints(HitPoints::from_value(10)).into();
    assert_eq!(stat.hit_points().unwrap().value(), 10);
}

#[test]
fn statistic_change_statistic() {
    let mut stat: Statistic = StatisticInitializer::HitPoints(HitPoints::from_value(10)).into();
    assert_eq!(stat.hit_points().unwrap().value(), 10);
    stat.apply_change(&StatisticChange::HitPoints(-4));
    assert_eq!(stat.hit_points().unwrap().value(), 6);
}

#[test]
fn statistic_accessor_of_the_wrong_kind_is_an_error() {
    let stat: Statistic = StatisticInitializer::HitPoints(HitPoints::from_value(10)).into();
    assert_eq!(stat.ability().err(), Some(SRDError::IncorrectVariant));
    assert_eq!(stat.race().err(), Some(SRDError::IncorrectVariant));
    assert_eq!(*stat.id(), StatisticId::HitPoints);
}

#[test]
fn statistic_change_saturates_at_the_bounds() {
    let mut stat: Statistic = StatisticInitializer::HitPoints(HitPoints::from_value(10)).into();
    stat.apply_change(&StatisticChange::HitPoints(100));
    assert_eq!(stat.hit_points().unwrap().value(), 10);
    stat.apply_change(&StatisticChange::HitPoints(-100));
    assert_eq!(stat.hit_points().unwrap().value(), 0);
}

#[test]
fn statistic_change_of_the_wrong_kind_is_ignored() {
    let mut stat: Statistic =
        StatisticInitializer::Ability(AbilityId(0), AbilityScore::capped(12)).into();
    stat.apply_change(&StatisticChange::HitPoints(-4));
    assert_eq!(stat.ability().unwrap().value(), 12);
    stat.apply_change(&StatisticChange::Ability(AbilityId(0), -4));
    assert_eq!(stat.ability().unwrap().value(), 8);
}
