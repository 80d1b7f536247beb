//! Hit Points of creatures.

use crate::dice::Dice;
use crate::error::{SRDError, SRDResult};
use crate::value::PositiveBoundedValue;
use vstd::prelude::*;
use vstd::string::StringExecFns;

verus! {

/// Represents the health of a creature.
///
/// A creature's current hit points can be any number from the creature's
/// hit point maximum down to 0.
pub type HitPoints = PositiveBoundedValue;

/// The dice used to generate a creature's hit points.
pub type HitDice = Dice;

/// Number of hit-point rolls a history can record: one per character level.
pub const HIT_POINTS_HISTORY_CAP: usize = 20;

/// The sum of the rolls in `s`.
pub open spec fn sum_of(s: Seq<u8>) -> int
    decreases s.len(),
{
    if s.len() == 0 {
        0
    } else {
        sum_of(s.drop_last()) + s.last()
    }
}

/// Every roll in `s` is a possible hit-point roll: nonzero.
pub open spec fn all_rolls_valid(s: Seq<u8>) -> bool {
    forall|i: int| 0 <= i < s.len() ==> s[i] != 0
}

/// The sum of a sequence of rolls is bounded by 255 per entry.
pub proof fn lemma_sum_of_bounds(s: Seq<u8>)
    ensures
        0 <= sum_of(s) <= 255 * s.len(),
    decreases s.len(),
{
    if s.len() > 0 {
        lemma_sum_of_bounds(s.drop_last());
    }
}

/// This struct contains the history of all hit points rolls for a
/// particular creature: an ordered, append-only record, capped at
/// [`HIT_POINTS_HISTORY_CAP`] entries.
#[derive(Debug, Clone)]
pub struct HitPointsHistory {
    results: Vec<u8>,
}

impl HitPointsHistory {
    /// The recorded rolls, oldest first.
    pub closed spec fn spec_results(self) -> Seq<u8> {
        self.results@
    }

    /// A history is well formed when it holds at most one nonzero roll per
    /// possible level.
    pub open spec fn wf(self) -> bool {
        self.spec_results().len() <= HIT_POINTS_HISTORY_CAP && all_rolls_valid(
            self.spec_results(),
        )
    }

    /// Returns how many hit points rolls are contained in this struct.
    pub fn count(&self) -> (r: usize)
        ensures
            r == self.spec_results().len(),
    {
        self.results.len()
    }

    /// Returns the total sum of hit points.
    pub fn total(&self) -> (r: u16)
        requires
            self.wf(),
        ensures
            r == sum_of(self.spec_results()),
    {
        let mut total: u16 = 0;
        let mut i: usize = 0;
        proof {
            assert(self.spec_results().subrange(0, 0) =~= Seq::<u8>::empty());
        }
        while i < self.results.len()
            invariant
                self.wf(),
                0 <= i <= self.spec_results().len(),
                total == sum_of(self.spec_results().subrange(0, i as int)),
                total <= 255 * i,
            decreases self.spec_results().len() - i,
        {
            proof {
                assert(self.spec_results().subrange(0, i + 1).drop_last() =~= self
                    .spec_results()
                    .subrange(0, i as int));
                assert(self.spec_results().subrange(0, i + 1).last() == self.spec_results()[
                    i as int]);
            }
            total = total + (self.results[i] as u16);
            i = i + 1;
        }
        proof {
            assert(self.spec_results().subrange(0, self.spec_results().len() as int) =~= self
                .spec_results());
        }
        total
    }

    /// Adds one hit points roll result.
    ///
    /// A roll of 0 is rejected as an invalid argument; a roll beyond the
    /// capacity fails with `MaxLevelReached`. In both cases the history is
    /// unchanged. Otherwise the roll is appended.
    pub fn add_result(&mut self, result: u8) -> (r: SRDResult<()>)
        requires
            old(self).wf(),
        ensures
            final(self).wf(),
            result == 0 ==> (r matches Err(e) && e is InvalidArgument && *final(self) == *old(
                self,
            )),
            result != 0 && old(self).spec_results().len() >= HIT_POINTS_HISTORY_CAP ==> (r
                == Err::<(), SRDError>(SRDError::MaxLevelReached) && *final(self) == *old(self)),
            result != 0 && old(self).spec_results().len() < HIT_POINTS_HISTORY_CAP ==> (r
                matches Ok(u) && final(self).spec_results() == old(self).spec_results().push(
                result,
            )),
    {
        if result == 0 {
            return Err(
                SRDError::InvalidArgument(String::from_str("hit points per level can't be 0")),
            );
        }
        if self.results.len() >= HIT_POINTS_HISTORY_CAP {
            Err(SRDError::MaxLevelReached)
        } else {
            self.results.push(result);
            Ok(())
        }
    }
}

impl Default for HitPointsHistory {
    /// Constructs an empty history.
    fn default() -> (r: Self)
        ensures
            r.spec_results() =~= Seq::<u8>::empty(),
            r.wf(),
    {
        Self { results: Vec::new() }
    }
}

} // verus!
