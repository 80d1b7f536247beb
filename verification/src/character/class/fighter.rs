//! Fighter class.

use crate::character::class::ClassModel;
use crate::dice::{Dice, Die};
use vstd::prelude::*;

verus! {

/// Id of the Fighter class.
///
/// **Hit Dice:** 1d10 per fighter level.
/// **Hit Points at 1st Level:** 10 + your Constitution modifier.
pub const FIGHTER: &'static str = "_fighter";

/// Whether a class model describes the Fighter class: one ten-sided hit
/// die per level.
pub open spec fn spec_is_fighter_model(m: ClassModel) -> bool {
    m.spec_hit_dice().n == 1 && m.spec_hit_dice().die == Die::D10
}

/// Returns the class model for Fighter.
pub fn fighter_model() -> (r: ClassModel)
    ensures
        spec_is_fighter_model(r),
{
    ClassModel::new(Dice::new(1, Die::D10))
}

} // verus!
