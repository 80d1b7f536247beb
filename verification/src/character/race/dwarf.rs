//! Dwarf race.

use crate::ability::{AbilityId, AbilityScore, CONSTITUTION};
use crate::character::race::generic_model::GenericRaceModel;
use crate::rules::size::CreatureSize;
use vstd::prelude::*;

verus! {

/// Returns the race model for Dwarf: a medium creature whose Constitution
/// score increases by 2.
pub fn dwarf_model() -> (r: GenericRaceModel)
    ensures
        r.spec_size() == CreatureSize::Medium,
        r.spec_increases().len() == 1,
        r.spec_increases()[0].0 == AbilityId(CONSTITUTION),
        r.spec_increases()[0].1.spec_value() == 2,
{
    let mut model = GenericRaceModel::new(CreatureSize::Medium);
    model.add_ability_score_increase(AbilityId(CONSTITUTION), AbilityScore::capped(2));
    model
}

} // verus!
