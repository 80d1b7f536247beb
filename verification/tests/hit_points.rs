use srd::error::SRDError;
use srd::hit_points::HitPointsHistory;

#[test]
fn hp_history_initialization() {
    let hp = HitPointsHistory::default();
    assert_eq!(hp.count(), 0);
    assert_eq!(hp.total(), 0);
}

#[test]
fn hp_history_add_result() {
    let mut hp = HitPointsHistory::default();
    for i in 1..=20 {
        assert!(hp.add_result(3).is_ok());
        assert_eq!(hp.count(), i);
        assert_eq!(hp.total() as usize, i * 3);
    }
    assert_eq!(hp.add_result(3).err(), Some(SRDError::MaxLevelReached));
}

#[test]
fn hp_history_add_result_invalid() {
    let mut hp = HitPointsHistory::default();
    assert!(hp.add_result(0).is_err());
}

#[test]
fn hp_history_rejects_a_zero_roll_with_a_reason() {
    let mut hp = HitPointsHistory::default();
    assert!(matches!(
        hp.add_result(0),
        Err(SRDError::InvalidArgument(_))
    ));
    assert_eq!(hp.count(), 0);
}

#[test]
fn hp_history_totals_the_recorded_rolls() {
    let mut hp = HitPointsHistory::default();
    assert!(hp.add_result(10).is_ok());
    assert!(hp.add_result(7).is_ok());
    assert!(hp.add_result(1).is_ok());
    assert_eq!(hp.count(), 3);
    assert_eq!(hp.total(), 18);
}
