//! This module contains creatures' abilities.

use crate::error::{SRDError, SRDResult};
use vstd::prelude::*;
use vstd::string::StringExecFns;

verus! {

/// Identifies an ability.
///
/// An ability provides a quick description of a creature's physical or
/// mental characteristic.
#[derive(Debug, Clone, Copy, PartialEq, Hash, Eq, Structural)]
pub struct AbilityId(pub u8);

impl From<u8> for AbilityId {
    fn from(item: u8) -> (r: Self) {
        AbilityId(item)
    }
}

impl vstd::std_specs::convert::FromSpecImpl<u8> for AbilityId {
    open spec fn obeys_from_spec() -> bool {
        true
    }

    open spec fn from_spec(item: u8) -> Self {
        AbilityId(item)
    }
}

/// Id value of the Strength ability.
pub const STRENGTH: u8 = 0;

/// Id value of the Dexterity ability.
pub const DEXTERITY: u8 = 1;

/// Id value of the Constitution ability.
pub const CONSTITUTION: u8 = 2;

/// Id value of the Intelligence ability.
pub const INTELLIGENCE: u8 = 3;

/// Id value of the Wisdom ability.
pub const WISDOM: u8 = 4;

/// Id value of the Charisma ability.
pub const CHARISMA: u8 = 5;

/// Number of core abilities.
pub const RESERVED_ABILITIES: u8 = 6;

/// The decimal digit `d` as a character.
pub open spec fn decimal_digit(d: nat) -> char {
    if d == 0 {
        '0'
    } else if d == 1 {
        '1'
    } else if d == 2 {
        '2'
    } else if d == 3 {
        '3'
    } else if d == 4 {
        '4'
    } else if d == 5 {
        '5'
    } else if d == 6 {
        '6'
    } else if d == 7 {
        '7'
    } else if d == 8 {
        '8'
    } else {
        '9'
    }
}

/// The decimal representation of `n`, most significant digit first.
pub open spec fn decimal_digits(n: nat) -> Seq<char>
    decreases n,
{
    if n < 10 {
        seq![decimal_digit(n)]
    } else {
        decimal_digits(n / 10).push(decimal_digit(n % 10))
    }
}

/// The single decimal digit `d` as a string slice.
fn digit_str(d: u8) -> (s: &'static str)
    requires
        d < 10,
    ensures
        s@ == seq![decimal_digit(d as nat)],
{
    proof {
        reveal_strlit("0");
        reveal_strlit("1");
        reveal_strlit("2");
        reveal_strlit("3");
        reveal_strlit("4");
        reveal_strlit("5");
        reveal_strlit("6");
        reveal_strlit("7");
        reveal_strlit("8");
        reveal_strlit("9");
    }
    let s: &'static str = match d {
        0 => "0",
        1 => "1",
        2 => "2",
        3 => "3",
        4 => "4",
        5 => "5",
        6 => "6",
        7 => "7",
        8 => "8",
        _ => "9",
    };
    proof {
        assert(s@ =~= seq![decimal_digit(d as nat)]);
    }
    s
}

/// The decimal representation of `n` as a string.
pub fn decimal_string(n: u8) -> (s: String)
    ensures
        s@ == decimal_digits(n as nat),
{
    if n < 10 {
        let s = String::from_str(digit_str(n));
        proof {
            assert(s@ =~= decimal_digits(n as nat));
        }
        s
    } else if n < 100 {
        let mut s = String::from_str(digit_str(n / 10));
        s.append(digit_str(n % 10));
        proof {
            let hi = (n / 10) as nat;
            assert(decimal_digits(hi) == seq![decimal_digit(hi)]);
            assert(decimal_digits(n as nat) == decimal_digits(n as nat / 10).push(
                decimal_digit(n as nat % 10),
            ));
            assert(s@ =~= decimal_digits(n as nat));
        }
        s
    } else {
        let mut s = String::from_str(digit_str(n / 100));
        s.append(digit_str((n / 10) % 10));
        s.append(digit_str(n % 10));
        proof {
            vstd::arithmetic::div_mod::lemma_div_denominator(n as int, 10, 10);
            assert(n as int / 10 / 10 == n as int / 100);
            let hi = (n / 100) as nat;
            let mid = (n as nat / 10) as nat;
            assert(decimal_digits(hi) == seq![decimal_digit(hi)]);
            assert(decimal_digits(mid) == decimal_digits(mid / 10).push(decimal_digit(mid % 10)));
            assert(decimal_digits(n as nat) == decimal_digits(n as nat / 10).push(
                decimal_digit(n as nat % 10),
            ));
            assert(s@ =~= decimal_digits(n as nat));
        }
        s
    }
}

/// What `srd_ability_string` returns for each ability id.
pub open spec fn spec_ability_string(id: AbilityId) -> Seq<char> {
    if id.0 == 0 {
        "strength"@
    } else if id.0 == 1 {
        "dexterity"@
    } else if id.0 == 2 {
        "constitution"@
    } else if id.0 == 3 {
        "intelligence"@
    } else if id.0 == 4 {
        "wisdom"@
    } else if id.0 == 5 {
        "charisma"@
    } else {
        decimal_digits(id.0 as nat)
    }
}

/// Returns a string representation of an `AbilityId`.
///
/// The string is accurate only when using the abilities defined by the SRD;
/// any other id is rendered as its decimal value.
pub fn srd_ability_string(id: AbilityId) -> (r: String)
    ensures
        r@ == spec_ability_string(id),
{
    match id.0 {
        0 => String::from_str("strength"),
        1 => String::from_str("dexterity"),
        2 => String::from_str("constitution"),
        3 => String::from_str("intelligence"),
        4 => String::from_str("wisdom"),
        5 => String::from_str("charisma"),
        _ => decimal_string(id.0),
    }
}

/// Minimum ability score.
pub const ABILITY_SCORE_MIN: u8 = 1;

/// Maximum ability score.
pub const ABILITY_SCORE_MAX: u8 = 30;

/// The value of `v` clamped into the legal range of ability scores.
pub open spec fn spec_ability_capped(v: int) -> u8 {
    if v < ABILITY_SCORE_MIN as int {
        ABILITY_SCORE_MIN
    } else if v > ABILITY_SCORE_MAX as int {
        ABILITY_SCORE_MAX
    } else {
        v as u8
    }
}

/// The modifier derived from an ability score, rounded toward negative
/// infinity.
pub open spec fn spec_ability_modifier(v: int) -> int {
    (v - 10) / 2
}

/// The numeric value of an ability.
///
/// Each of a creature's abilities has a score, a number that defines the
/// magnitude of that ability, always between [`ABILITY_SCORE_MIN`] and
/// [`ABILITY_SCORE_MAX`].
///
/// Each ability also has a modifier, derived from the score and ranging
/// from -5 (for an ability score of 1) to +10 (for a score of 30).
#[derive(Clone, Copy, Debug, PartialEq)]
pub struct AbilityScore {
    value: u8,
}

impl AbilityScore {
    /// The legal range of ability scores.
    #[verifier::type_invariant]
    pub closed spec fn wf(self) -> bool {
        ABILITY_SCORE_MIN <= self.value <= ABILITY_SCORE_MAX
    }

    /// The score's numeric value.
    pub closed spec fn spec_value(self) -> u8 {
        self.value
    }

    /// Returns true if the given value is a valid ability score.
    pub fn is_value_valid(value: u8) -> (r: bool)
        ensures
            r == (ABILITY_SCORE_MIN <= value <= ABILITY_SCORE_MAX),
    {
        crate::util::is_value_valid(value, ABILITY_SCORE_MIN, ABILITY_SCORE_MAX)
    }

    /// Constructs a new `AbilityScore` with the given value.
    ///
    /// An error is returned if and only if the provided value is out of
    /// bounds.
    pub fn new(value: u8) -> (r: SRDResult<Self>)
        ensures
            ABILITY_SCORE_MIN <= value <= ABILITY_SCORE_MAX ==> (r matches Ok(s)
                && s.spec_value() == value),
            !(ABILITY_SCORE_MIN <= value <= ABILITY_SCORE_MAX) ==> r == Err::<Self, SRDError>(
                SRDError::InvalidAbilityScore(value),
            ),
    {
        if Self::is_value_valid(value) {
            Ok(Self { value })
        } else {
            Err(SRDError::InvalidAbilityScore(value))
        }
    }

    /// Constructs a new `AbilityScore` capped between the min and max value.
    pub fn capped(value: u8) -> (r: Self)
        ensures
            r.spec_value() == spec_ability_capped(value as int),
    {
        if value < ABILITY_SCORE_MIN {
            Self { value: ABILITY_SCORE_MIN }
        } else if value > ABILITY_SCORE_MAX {
            Self { value: ABILITY_SCORE_MAX }
        } else {
            Self { value }
        }
    }

    /// Adds `value` to the current ability score's value, saturating at the
    /// upper bound.
    pub fn add(&mut self, value: u8)
        ensures
            final(self).spec_value() == spec_ability_capped(
                old(self).spec_value() + value,
            ),
    {
        proof {
            use_type_invariant(&*self);
        }
        let room = ABILITY_SCORE_MAX - self.value;
        if value >= room {
            *self = Self { value: ABILITY_SCORE_MAX };
        } else {
            *self = Self { value: self.value + value };
        }
    }

    /// Subtracts `value` from the current ability score's value, saturating
    /// at the lower bound.
    pub fn subtract(&mut self, value: u8)
        ensures
            final(self).spec_value() == spec_ability_capped(
                old(self).spec_value() - value,
            ),
    {
        proof {
            use_type_invariant(&*self);
        }
        if self.value < value {
            *self = Self { value: ABILITY_SCORE_MIN };
        } else if self.value - value < ABILITY_SCORE_MIN {
            *self = Self { value: ABILITY_SCORE_MIN };
        } else {
            *self = Self { value: self.value - value };
        }
    }

    /// Returns the value of this ability score.
    pub fn value(&self) -> (r: u8)
        ensures
            r == self.spec_value(),
            ABILITY_SCORE_MIN <= r <= ABILITY_SCORE_MAX,
    {
        proof {
            use_type_invariant(self);
        }
        self.value
    }

    /// Sets a new value.
    ///
    /// An error is returned if and only if the provided value is out of
    /// bounds; the score is unchanged in that case.
    pub fn set_value(&mut self, value: u8) -> (r: SRDResult<()>)
        ensures
            ABILITY_SCORE_MIN <= value <= ABILITY_SCORE_MAX ==> (r matches Ok(u)
                && final(self).spec_value() == value),
            !(ABILITY_SCORE_MIN <= value <= ABILITY_SCORE_MAX) ==> (r == Err::<(), SRDError>(
                SRDError::InvalidAbilityScore(value),
            ) && *final(self) == *old(self)),
    {
        if Self::is_value_valid(value) {
            *self = Self { value };
            Ok(())
        } else {
            Err(SRDError::InvalidAbilityScore(value))
        }
    }

    /// Returns the modifier of this ability score.
    ///
    /// The modifier is the score minus 10, divided by 2 and rounded toward
    /// negative infinity.
    pub fn modifier(&self) -> (r: i8)
        ensures
            r == spec_ability_modifier(self.spec_value() as int),
            -5 <= r <= 10,
    {
        proof {
            use_type_invariant(self);
        }
        let shifted = (self.value + 10) / 2;
        (shifted as i8) - 10
    }
}

} // verus!
