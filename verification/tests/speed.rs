use srd::speed::{Conditions, MovementType, Speed};

#[test]
fn easy_stroll() {
    let speed = Speed::from(5);
    assert_eq!(speed.move_speed(MovementType::Walk, Conditions::Normal), 5)
}

#[test]
fn mud_walk() {
    let speed = Speed::from(5);
    assert_eq!(
        speed.move_speed(MovementType::Walk, Conditions::DifficultTerrain),
        2
    )
}

#[test]
fn just_a_climb() {
    let speed = Speed::from(5);
    assert_eq!(speed.move_speed(MovementType::Climb, Conditions::Normal), 2)
}

#[test]
fn crawl_to_mordor() {
    let speed = Speed::from(5);
    assert_eq!(
        speed.move_speed(MovementType::Crawl, Conditions::DifficultTerrain),
        1
    )
}
