//! Actions of creatures.

use crate::error::{SRDError, SRDResult};
use vstd::prelude::*;

verus! {

/// Uniquely identifies an `Action`.
#[derive(Debug, Clone, Copy, PartialEq, Hash, Eq, Structural)]
pub enum ActionId {
    /// Moving around the battlefield.
    Movement,
    /// Attacking another creature.
    Attack,
}

/// Encapsulates the actual value of an action.
#[derive(Debug, Clone, Copy, PartialEq, Eq, Structural)]
pub enum ActionValue {
    /// Moving around the battlefield.
    Movement,
    /// Attacking another creature.
    Attack,
}

/// An action is something that an actor is able to perform.
/// Most often an action causes a change in the state of one or more
/// objects. Actions are identified by an id and can be of different
/// nature.
#[derive(Debug, Clone, Copy, PartialEq, Eq, Structural)]
pub struct Action {
    id: ActionId,
    value: ActionValue,
}

impl Action {
    /// The action's id.
    pub closed spec fn spec_id(self) -> ActionId {
        self.id
    }

    /// The action's value.
    pub closed spec fn spec_value(self) -> ActionValue {
        self.value
    }

    /// Returns `()` if this action is a movement, otherwise an error.
    pub fn movement(&self) -> (r: SRDResult<()>)
        ensures
            self.spec_value() == ActionValue::Movement ==> r matches Ok(u),
            self.spec_value() != ActionValue::Movement ==> r == Err::<(), SRDError>(
                SRDError::IncorrectVariant,
            ),
    {
        if let ActionValue::Movement = &self.value {
            Ok(())
        } else {
            Err(SRDError::IncorrectVariant)
        }
    }

    /// Returns `()` if this action is an attack, otherwise an error.
    pub fn attack(&self) -> (r: SRDResult<()>)
        ensures
            self.spec_value() == ActionValue::Attack ==> r matches Ok(u),
            self.spec_value() != ActionValue::Attack ==> r == Err::<(), SRDError>(
                SRDError::IncorrectVariant,
            ),
    {
        if let ActionValue::Attack = &self.value {
            Ok(())
        } else {
            Err(SRDError::IncorrectVariant)
        }
    }

    /// Returns the action's id.
    pub fn id(&self) -> (r: ActionId)
        ensures
            r == self.spec_id(),
    {
        self.id
    }
}

/// The action id that an initializer variant creates.
pub open spec fn spec_action_initializer_id(item: ActionInitializer) -> ActionId {
    match item {
        ActionInitializer::Movement => ActionId::Movement,
        ActionInitializer::Attack => ActionId::Attack,
    }
}

/// The action value that an initializer variant creates.
pub open spec fn spec_action_initializer_value(item: ActionInitializer) -> ActionValue {
    match item {
        ActionInitializer::Movement => ActionValue::Movement,
        ActionInitializer::Attack => ActionValue::Attack,
    }
}

impl From<ActionInitializer> for Action {
    /// Each initializer variant creates the action with the matching id.
    fn from(item: ActionInitializer) -> (r: Self)
        ensures
            r.spec_id() == spec_action_initializer_id(item),
            r.spec_value() == spec_action_initializer_value(item),
    {
        match item {
            ActionInitializer::Movement => Self { id: ActionId::Movement, value: ActionValue::Movement },
            ActionInitializer::Attack => Self { id: ActionId::Attack, value: ActionValue::Attack },
        }
    }
}

impl vstd::std_specs::convert::FromSpecImpl<ActionInitializer> for Action {
    open spec fn obeys_from_spec() -> bool {
        true
    }

    closed spec fn from_spec(item: ActionInitializer) -> Self {
        match item {
            ActionInitializer::Movement => Action {
                id: ActionId::Movement,
                value: ActionValue::Movement,
            },
            ActionInitializer::Attack => Action { id: ActionId::Attack, value: ActionValue::Attack },
        }
    }
}

/// Initializer to create an action.
#[derive(Debug, Clone, Copy, PartialEq, Eq, Structural)]
pub enum ActionInitializer {
    /// Creates a movement action.
    Movement,
    /// Creates an attack action.
    Attack,
}

/// `ActionsSeed` is used to generate all actions of an actor.
#[derive(Debug, Clone)]
pub struct ActionsSeed {
    /// A simple list of action initializers.
    pub actions: Vec<ActionInitializer>,
}

impl Default for ActionsSeed {
    /// Constructs a seed with no actions.
    fn default() -> (r: Self)
        ensures
            r.actions@ =~= Seq::<ActionInitializer>::empty(),
    {
        Self { actions: Vec::new() }
    }
}

} // verus!
