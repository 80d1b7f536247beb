//! Die and dice module.

use vstd::prelude::*;

verus! {

/// Number of distinct die types.
pub const DIE_TYPES_COUNT: usize = 7;

/// Types of die used in the SRD.
#[derive(Debug, Clone, Copy, PartialEq, Hash, Eq, Structural)]
pub enum Die {
    /// A die with four sides.
    D4,
    /// A die with six sides.
    D6,
    /// A die with eight sides.
    D8,
    /// A die with ten sides.
    D10,
    /// A die with twelve sides.
    D12,
    /// A die with twenty sides.
    D20,
    /// A die with one hundred sides.
    D100,
}

/// The number of sides of a die.
pub open spec fn spec_die_sides(die: Die) -> u8 {
    match die {
        Die::D4 => 4,
        Die::D6 => 6,
        Die::D8 => 8,
        Die::D10 => 10,
        Die::D12 => 12,
        Die::D20 => 20,
        Die::D100 => 100,
    }
}

/// The fixed tally slot of a die type.
pub open spec fn spec_die_id(die: Die) -> int {
    match die {
        Die::D4 => 0,
        Die::D6 => 1,
        Die::D8 => 2,
        Die::D10 => 3,
        Die::D12 => 4,
        Die::D20 => 5,
        Die::D100 => 6,
    }
}

impl Die {
    /// Returns the number of sides of a die.
    pub fn sides(&self) -> (r: u8)
        ensures
            r == spec_die_sides(*self),
    {
        match self {
            Die::D4 => 4,
            Die::D6 => 6,
            Die::D8 => 8,
            Die::D10 => 10,
            Die::D12 => 12,
            Die::D20 => 20,
            Die::D100 => 100,
        }
    }

    /// Returns the stable tally slot of a die type.
    pub fn id(&self) -> (r: usize)
        ensures
            r == spec_die_id(*self),
            r < DIE_TYPES_COUNT,
    {
        match self {
            Die::D4 => 0,
            Die::D6 => 1,
            Die::D8 => 2,
            Die::D10 => 3,
            Die::D12 => 4,
            Die::D20 => 5,
            Die::D100 => 6,
        }
    }

    /// The minimum obtainable value from this die.
    pub fn min(&self) -> (r: u8)
        ensures
            r == 1,
    {
        1
    }

    /// The maximum obtainable value from this die.
    pub fn max(&self) -> (r: u8)
        ensures
            r == spec_die_sides(*self),
    {
        self.sides()
    }
}

/// A dice represents how many times a particular die should be rolled.
/// It is the primary way to resolve random actions in the SRD.
#[derive(Debug, Clone, Copy, PartialEq, Eq, Structural)]
pub struct Dice {
    /// Number of times the die should be rolled.
    pub n: u8,
    /// The type of die to use.
    pub die: Die,
}

impl Dice {
    /// Constructs a new `Dice`.
    pub fn new(n: u8, die: Die) -> (r: Self)
        ensures
            r.n == n && r.die == die,
    {
        Self { n, die }
    }
}

/// The tally `pool` with `n` more rolls of `die`, truncated to the `u8`
/// range of a slot.
pub open spec fn spec_pool_add(pool: Seq<u8>, die: Die, n: u8) -> Seq<u8> {
    pool.update(spec_die_id(die), ((pool[spec_die_id(die)] + n) as u8))
}

/// A list of dice. Dice are compacted: adding a die type increments its
/// fixed tally slot instead of appending a new entry.
#[derive(Debug, Clone, Copy, PartialEq)]
pub struct DicePool {
    /// An array with the number of times each die should be rolled.
    pub pool: [u8; 7],
}

impl Default for DicePool {
    /// Constructs an empty `DicePool`.
    fn default() -> (r: Self)
        ensures
            r.pool@ =~= seq![0u8, 0u8, 0u8, 0u8, 0u8, 0u8, 0u8],
    {
        Self { pool: [0, 0, 0, 0, 0, 0, 0] }
    }
}

impl DicePool {
    /// Constructs a new `DicePool` from a simple dice.
    pub fn from_dice(dice: Dice) -> (r: Self)
        ensures
            r.pool@ == spec_pool_add(seq![0u8, 0u8, 0u8, 0u8, 0u8, 0u8, 0u8], dice.die, dice.n),
    {
        let mut instance = Self::default();
        instance.add_dice(dice);
        instance
    }

    /// Adds a new dice, incrementing the tally slot of its die type.
    pub fn add_dice(&mut self, dice: Dice)
        requires
            old(self).pool@[spec_die_id(dice.die)] + dice.n <= u8::MAX,
        ensures
            final(self).pool@ == spec_pool_add(old(self).pool@, dice.die, dice.n),
    {
        let id = dice.die.id();
        self.pool[id] = self.pool[id] + dice.n;
        proof {
            assert(self.pool@ =~= spec_pool_add(old(self).pool@, dice.die, dice.n));
        }
    }
}

/// A dice roll is a `Dice` plus a modifier to be added to the final result.
#[derive(Debug, Clone, Copy, PartialEq, Eq, Structural)]
pub struct DiceRoll {
    /// The dice to be rolled.
    pub dice: Dice,
    /// A numerical modifier to be added to the dice roll's result.
    pub modifier: i16,
}

impl DiceRoll {
    /// Constructs a new `DiceRoll`.
    pub fn new(dice: Dice) -> (r: Self)
        ensures
            r.dice == dice && r.modifier == 0,
    {
        Self { dice, modifier: 0 }
    }

    /// Constructs a new `DiceRoll` with an additional modifier.
    pub fn with_modifier(dice: Dice, modifier: i16) -> (r: Self)
        ensures
            r.dice == dice && r.modifier == modifier,
    {
        Self { dice, modifier }
    }
}

/// Similar to `DicePool` with the addition of a modifier.
/// Internal dice rolls are compacted, in the sense that there is a single
/// modifier and rolls of an individual die are repeated only once.
#[derive(Debug, Clone, Copy, PartialEq)]
pub struct DiceRolls {
    /// The dice pool to be rolled.
    pub dice_pool: DicePool,
    /// A numerical modifier to be added to the dice rolls' result.
    pub modifier: i16,
}

/// The pool tally after composing a roll into `pool`.
pub open spec fn spec_rolls_pool(pool: Seq<u8>, roll: DiceRoll) -> Seq<u8> {
    spec_pool_add(pool, roll.dice.die, roll.dice.n)
}

/// The aggregate modifier after composing a roll into `modifier`.
pub open spec fn spec_rolls_modifier(modifier: int, roll: DiceRoll) -> int {
    modifier + roll.modifier
}

impl DiceRolls {
    /// Constructs a new `DiceRolls` starting from a single `DiceRoll`.
    pub fn from_roll(roll: DiceRoll) -> (r: Self)
        ensures
            r.dice_pool.pool@ == spec_rolls_pool(
                seq![0u8, 0u8, 0u8, 0u8, 0u8, 0u8, 0u8],
                roll,
            ),
            r.modifier == roll.modifier,
    {
        let mut instance = Self { dice_pool: DicePool::default(), modifier: 0 };
        instance.add_roll(roll);
        instance
    }

    /// Constructs a new `DiceRolls` starting from a `DicePool`.
    pub fn from_pool(dice: DicePool) -> (r: Self)
        ensures
            r.dice_pool == dice && r.modifier == 0,
    {
        Self { dice_pool: dice, modifier: 0 }
    }

    /// Adds a new dice to the pool, leaving the modifier unchanged.
    pub fn add_dice(&mut self, dice: Dice)
        requires
            old(self).dice_pool.pool@[spec_die_id(dice.die)] + dice.n <= u8::MAX,
        ensures
            final(self).dice_pool.pool@ == spec_pool_add(
                old(self).dice_pool.pool@,
                dice.die,
                dice.n,
            ),
            final(self).modifier == old(self).modifier,
    {
        self.dice_pool.add_dice(dice);
    }

    /// Adds a new `DiceRoll`, composing its dice into the pool and summing
    /// its modifier into the aggregate modifier.
    pub fn add_roll(&mut self, roll: DiceRoll)
        requires
            old(self).dice_pool.pool@[spec_die_id(roll.dice.die)] + roll.dice.n <= u8::MAX,
            i16::MIN <= old(self).modifier + roll.modifier <= i16::MAX,
        ensures
            final(self).dice_pool.pool@ == spec_rolls_pool(old(self).dice_pool.pool@, roll),
            final(self).modifier == spec_rolls_modifier(old(self).modifier as int, roll),
    {
        self.add_dice(roll.dice);
        self.modifier = self.modifier + roll.modifier;
    }
}

/// Composing two rolls into a pool and aggregate modifier is commutative:
/// as long as neither order overflows a tally slot, adding roll `a` and
/// then roll `b` yields exactly the same pool and the same modifier as
/// adding `b` and then `a`.
pub proof fn lemma_add_roll_commutative(pool: Seq<u8>, modifier: int, a: DiceRoll, b: DiceRoll)
    requires
        pool.len() == 7,
        pool[spec_die_id(a.dice.die)] + a.dice.n <= u8::MAX,
        pool[spec_die_id(b.dice.die)] + b.dice.n <= u8::MAX,
        spec_die_id(a.dice.die) == spec_die_id(b.dice.die) ==> pool[spec_die_id(a.dice.die)]
            + a.dice.n + b.dice.n <= u8::MAX,
    ensures
        spec_rolls_pool(spec_rolls_pool(pool, a), b) == spec_rolls_pool(
            spec_rolls_pool(pool, b),
            a,
        ),
        spec_rolls_modifier(spec_rolls_modifier(modifier, a), b) == spec_rolls_modifier(
            spec_rolls_modifier(modifier, b),
            a,
        ),
{
    assert(spec_rolls_pool(spec_rolls_pool(pool, a), b) =~= spec_rolls_pool(
        spec_rolls_pool(pool, b),
        a,
    ));
}

} // verus!
