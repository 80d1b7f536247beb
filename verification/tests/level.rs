use srd::character::level::{Level, LEVEL_MAX, LEVEL_MIN};
use srd::error::SRDError;

#[test]
fn level_new_has_bounds() {
    assert!(Level::new(3).is_ok());
    assert!(Level::new(LEVEL_MIN - 1).is_err());
    assert!(Level::new(LEVEL_MAX + 1).is_err());
}

#[test]
fn level_set_has_bounds() {
    let mut level = Level::new(3).unwrap();
    assert!(level.set_value(LEVEL_MIN - 1).is_err());
    assert!(level.set_value(LEVEL_MAX + 1).is_err());
    assert!(level.set_value(2).is_ok());
    assert_eq!(level.value(), 2);
}

#[test]
fn level_new_reports_invalid_value() {
    assert_eq!(Level::new(0).err(), Some(SRDError::InvalidLevel(0)));
    assert_eq!(Level::new(21).err(), Some(SRDError::InvalidLevel(21)));
}

#[test]
fn level_starts_at_the_minimum() {
    assert_eq!(Level::default().value(), LEVEL_MIN);
}
