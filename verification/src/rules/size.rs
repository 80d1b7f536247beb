//! Size and dimension of entities.

use vstd::prelude::*;

verus! {

/// Each creature takes up a different amount of space.
#[derive(Clone, Copy, Debug, PartialEq, Eq, Structural)]
pub enum CreatureSize {
    /// The smallest creatures.
    Tiny,
    /// Smaller than a person.
    Small,
    /// About the size of a person.
    Medium,
    /// Larger than a person.
    Large,
    /// Towering creatures.
    Huge,
    /// The largest creatures.
    Gargantuan,
}

/// The length (in squares) of one side of the space occupied by a creature
/// of the given size.
pub open spec fn spec_space_sq(size: CreatureSize) -> u8 {
    match size {
        CreatureSize::Tiny => 1,
        CreatureSize::Small => 2,
        CreatureSize::Medium => 2,
        CreatureSize::Large => 4,
        CreatureSize::Huge => 6,
        CreatureSize::Gargantuan => 8,
    }
}

impl CreatureSize {
    /// Returns the length (in squares) of one side of the occupied space.
    ///
    /// A creature's space is the area that it effectively controls in
    /// combat, not an expression of its physical dimensions.
    pub fn space_sq(&self) -> (r: u8)
        ensures
            r == spec_space_sq(*self),
    {
        match self {
            CreatureSize::Tiny => 1,
            CreatureSize::Small => 2,
            CreatureSize::Medium => 2,
            CreatureSize::Large => 4,
            CreatureSize::Huge => 6,
            CreatureSize::Gargantuan => 8,
        }
    }
}

} // verus!
