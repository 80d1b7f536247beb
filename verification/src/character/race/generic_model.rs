//! Generic race model.

use crate::ability::{AbilityId, AbilityScore};
use crate::rules::size::CreatureSize;
use vstd::prelude::*;

verus! {

/// The total ability-score bonus that the increases in `incs` grant to the
/// ability `id`.
pub open spec fn spec_bonus_total(incs: Seq<(AbilityId, AbilityScore)>, id: AbilityId) -> int
    decreases incs.len(),
{
    if incs.len() == 0 {
        0
    } else {
        spec_bonus_total(incs.drop_last(), id) + if incs.last().0 == id {
            incs.last().1.spec_value() as int
        } else {
            0
        }
    }
}

/// The total bonus is never negative.
pub proof fn lemma_bonus_total_nonneg(incs: Seq<(AbilityId, AbilityScore)>, id: AbilityId)
    ensures
        spec_bonus_total(incs, id) >= 0,
    decreases incs.len(),
{
    if incs.len() > 0 {
        lemma_bonus_total_nonneg(incs.drop_last(), id);
    }
}

/// A race described as a registrable data record: an ordered list of
/// ability-score increases plus a size category.
#[derive(Debug)]
pub struct GenericRaceModel {
    ability_score_increases: Vec<(AbilityId, AbilityScore)>,
    size: CreatureSize,
}

impl GenericRaceModel {
    /// The ordered list of ability-score increases.
    pub closed spec fn spec_increases(self) -> Seq<(AbilityId, AbilityScore)> {
        self.ability_score_increases@
    }

    /// The race's size category.
    pub closed spec fn spec_size(self) -> CreatureSize {
        self.size
    }

    /// Constructs a race model of the given size, with no ability-score
    /// increases.
    pub fn new(size: CreatureSize) -> (r: Self)
        ensures
            r.spec_increases() =~= Seq::<(AbilityId, AbilityScore)>::empty(),
            r.spec_size() == size,
    {
        Self { ability_score_increases: Vec::new(), size }
    }

    /// Adds a new ability score increase.
    pub fn add_ability_score_increase(&mut self, id: AbilityId, score: AbilityScore)
        ensures
            final(self).spec_increases() == old(self).spec_increases().push((id, score)),
            final(self).spec_size() == old(self).spec_size(),
    {
        self.ability_score_increases.push((id, score));
    }

    /// Returns the list of ability score increases.
    pub fn ability_score_increases(&self) -> (r: &Vec<(AbilityId, AbilityScore)>)
        ensures
            r@ == self.spec_increases(),
    {
        &self.ability_score_increases
    }

    /// Returns the creature size category of the race.
    pub fn size(&self) -> (r: CreatureSize)
        ensures
            r == self.spec_size(),
    {
        self.size
    }

    /// Returns the total bonus granted to the ability `id`, saturated at
    /// `u8::MAX`.
    pub fn bonus_total_saturated(&self, id: AbilityId) -> (r: u8)
        ensures
            r == if spec_bonus_total(self.spec_increases(), id) > u8::MAX as int {
                u8::MAX as int
            } else {
                spec_bonus_total(self.spec_increases(), id)
            },
    {
        let incs = &self.ability_score_increases;
        let mut total: u8 = 0;
        let mut i: usize = 0;
        proof {
            assert(incs@.subrange(0, 0) =~= Seq::<(AbilityId, AbilityScore)>::empty());
        }
        while i < incs.len()
            invariant
                0 <= i <= incs@.len(),
                incs@ == self.spec_increases(),
                total == if spec_bonus_total(incs@.subrange(0, i as int), id) > u8::MAX as int {
                    u8::MAX as int
                } else {
                    spec_bonus_total(incs@.subrange(0, i as int), id)
                },
            decreases incs@.len() - i,
        {
            proof {
                lemma_bonus_total_nonneg(incs@.subrange(0, i as int), id);
                assert(incs@.subrange(0, i + 1).drop_last() =~= incs@.subrange(0, i as int));
            }
            let (inc_id, inc_score) = incs[i];
            if inc_id == id {
                let v = inc_score.value();
                if total >= u8::MAX - v {
                    total = u8::MAX;
                } else {
                    total = total + v;
                }
            }
            i = i + 1;
        }
        proof {
            assert(incs@.subrange(0, incs@.len() as int) =~= incs@);
        }
        total
    }
}

impl Clone for GenericRaceModel {
    /// Clones the model, preserving its increases and size.
    fn clone(&self) -> (r: Self)
        ensures
            r.spec_increases() == self.spec_increases(),
            r.spec_size() == self.spec_size(),
    {
        let incs = &self.ability_score_increases;
        let mut copy: Vec<(AbilityId, AbilityScore)> = Vec::new();
        let mut i: usize = 0;
        while i < incs.len()
            invariant
                0 <= i <= incs@.len(),
                copy@ =~= incs@.subrange(0, i as int),
            decreases incs@.len() - i,
        {
            copy.push(incs[i]);
            i = i + 1;
        }
        proof {
            assert(copy@ =~= incs@);
        }
        Self { ability_score_increases: copy, size: self.size }
    }
}

} // verus!
