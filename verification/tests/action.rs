use srd::error::SRDError;
use srd::rules::action::{Action, ActionId, ActionInitializer};

#[test]
fn create_action() {
    let action: Action = ActionInitializer::Movement.into();
    assert!(action.movement().is_ok());
    assert!(action.attack().is_err());
}

#[test]
fn action_create_action() {
    let action: Action = ActionInitializer::Movement.into();
    assert!(action.movement().is_ok());
    assert!(action.attack().is_err());
}

#[test]
fn action_accessor_of_the_wrong_kind_is_an_error() {
    let action: Action = ActionInitializer::Attack.into();
    assert_eq!(action.id(), ActionId::Attack);
    assert!(action.attack().is_ok());
    assert_eq!(action.movement().err(), Some(SRDError::IncorrectVariant));
}
