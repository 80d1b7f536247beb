//! Hill Dwarf race.

use crate::ability::{AbilityId, AbilityScore, CONSTITUTION, WISDOM};
use crate::character::race::dwarf::dwarf_model;
use crate::character::race::generic_model::GenericRaceModel;
use crate::rules::size::CreatureSize;
use vstd::prelude::*;

verus! {

/// Id of the Hill Dwarf race.
///
/// A Hill Dwarf is a medium dwarf: its Constitution score increases by 2
/// and its Wisdom score increases by 1.
pub const HILL_DWARF: &'static str = "_hill_dwarf";

/// Whether a race model describes the Hill Dwarf race: a medium creature
/// with a +2 Constitution increase and a +1 Wisdom increase.
pub open spec fn spec_is_hill_dwarf_model(m: GenericRaceModel) -> bool {
    &&& m.spec_size() == CreatureSize::Medium
    &&& m.spec_increases().len() == 2
    &&& m.spec_increases()[0].0 == AbilityId(CONSTITUTION)
    &&& m.spec_increases()[0].1.spec_value() == 2
    &&& m.spec_increases()[1].0 == AbilityId(WISDOM)
    &&& m.spec_increases()[1].1.spec_value() == 1
}

/// Returns the race model for Hill Dwarf.
pub fn hill_dwarf_model() -> (r: GenericRaceModel)
    ensures
        spec_is_hill_dwarf_model(r),
{
    let mut model = dwarf_model();
    model.add_ability_score_increase(AbilityId(WISDOM), AbilityScore::capped(1));
    model
}

} // verus!
