//! Utility functions.

use vstd::prelude::*;

verus! {

/// Returns true if `value` is between `min` and `max` (inclusive).
pub fn is_value_valid(value: u8, min: u8, max: u8) -> (r: bool)
    requires
        min <= max,
    ensures
        r == (min <= value <= max),
{
    value >= min && value <= max
}

/// The mapping that an association list denotes; a later entry for a key
/// overrides an earlier one.
pub open spec fn assoc_map<K, V>(s: Seq<(K, V)>) -> Map<K, V>
    decreases s.len(),
{
    if s.len() == 0 {
        Map::empty()
    } else {
        assoc_map(s.drop_last()).insert(s.last().0, s.last().1)
    }
}

/// Whether the association list `s` holds an entry for the key `k`.
pub open spec fn assoc_contains<K, V>(s: Seq<(K, V)>, k: K) -> bool {
    exists|i: int| 0 <= i < s.len() && s[i].0 == k
}

/// Whether the association list `s` holds at most one entry per key.
pub open spec fn assoc_keys_unique<K, V>(s: Seq<(K, V)>) -> bool {
    forall|i: int, j: int| 0 <= i < j < s.len() ==> s[i].0 != s[j].0
}

/// A key is in the domain of the denoted mapping exactly when the list
/// holds an entry for it.
pub proof fn lemma_assoc_map_contains<K, V>(s: Seq<(K, V)>, k: K)
    ensures
        assoc_map(s).dom().contains(k) <==> assoc_contains(s, k),
    decreases s.len(),
{
    if s.len() == 0 {
    } else {
        let prefix = s.drop_last();
        lemma_assoc_map_contains(prefix, k);
        if s.last().0 == k {
            assert(s[s.len() - 1].0 == k);
        } else {
            if assoc_contains(prefix, k) {
                let i = choose|i: int| 0 <= i < prefix.len() && prefix[i].0 == k;
                assert(s[i].0 == k);
            }
            if assoc_contains(s, k) {
                let i = choose|i: int| 0 <= i < s.len() && s[i].0 == k;
                assert(prefix[i].0 == k);
            }
        }
    }
}

/// With unique keys, the denoted mapping sends the key of each entry to
/// that entry's value.
pub proof fn lemma_assoc_map_index<K, V>(s: Seq<(K, V)>, i: int)
    requires
        assoc_keys_unique(s),
        0 <= i < s.len(),
    ensures
        assoc_map(s).dom().contains(s[i].0),
        assoc_map(s)[s[i].0] == s[i].1,
    decreases s.len(),
{
    if i == s.len() - 1 {
    } else {
        let prefix = s.drop_last();
        assert(prefix[i] == s[i]);
        lemma_assoc_map_index(prefix, i);
    }
}

/// Appending an entry denotes inserting it into the mapping.
pub proof fn lemma_assoc_map_push<K, V>(s: Seq<(K, V)>, k: K, v: V)
    ensures
        assoc_map(s.push((k, v))) == assoc_map(s).insert(k, v),
{
    assert(s.push((k, v)).drop_last() =~= s);
    assert(s.push((k, v)).last() == (k, v));
}

/// With unique keys, replacing the entry of a key in place denotes
/// inserting the new value into the mapping.
pub proof fn lemma_assoc_map_update<K, V>(s: Seq<(K, V)>, i: int, k: K, v: V)
    requires
        assoc_keys_unique(s),
        0 <= i < s.len(),
        s[i].0 == k,
    ensures
        assoc_map(s.update(i, (k, v))) == assoc_map(s).insert(k, v),
    decreases s.len(),
{
    let t = s.update(i, (k, v));
    if i == s.len() - 1 {
        assert(t.drop_last() =~= s.drop_last());
        assert(assoc_map(t) == assoc_map(s.drop_last()).insert(k, v));
        assert(assoc_map(s).insert(k, v) =~= assoc_map(s.drop_last()).insert(k, v));
    } else {
        assert(t.drop_last() =~= s.drop_last().update(i, (k, v)));
        assert(s.drop_last()[i] == s[i]);
        lemma_assoc_map_update(s.drop_last(), i, k, v);
        assert(t.last() == s.last());
        assert(assoc_map(t) == assoc_map(s.drop_last()).insert(k, v).insert(
            s.last().0,
            s.last().1,
        ));
        assert(s[s.len() - 1].0 != k);
        assert(assoc_map(s.drop_last()).insert(k, v).insert(s.last().0, s.last().1)
            =~= assoc_map(s.drop_last()).insert(s.last().0, s.last().1).insert(k, v));
    }
}

/// Appending an entry for a fresh key keeps the keys unique.
pub proof fn lemma_assoc_push_unique<K, V>(s: Seq<(K, V)>, k: K, v: V)
    requires
        assoc_keys_unique(s),
        !assoc_contains(s, k),
    ensures
        assoc_keys_unique(s.push((k, v))),
{
    let t = s.push((k, v));
    assert forall|i: int, j: int| 0 <= i < j < t.len() implies t[i].0 != t[j].0 by {
        if j == t.len() - 1 {
            assert(!(s[i].0 == k));
        }
    }
}

/// Replacing the entry of a key in place keeps the keys unique.
pub proof fn lemma_assoc_update_unique<K, V>(s: Seq<(K, V)>, i: int, k: K, v: V)
    requires
        assoc_keys_unique(s),
        0 <= i < s.len(),
        s[i].0 == k,
    ensures
        assoc_keys_unique(s.update(i, (k, v))),
{
}

/// With unique keys, an entry's index is the only one bearing its key.
pub proof fn lemma_assoc_index_unique<K, V>(s: Seq<(K, V)>, i: int, j: int)
    requires
        assoc_keys_unique(s),
        0 <= i < s.len(),
        0 <= j < s.len(),
        s[i].0 == s[j].0,
    ensures
        i == j,
{
}

/// The index of the entry for `k` in `s`; meaningful only when
/// `assoc_contains(s, k)` holds.
pub open spec fn assoc_index_of<K, V>(s: Seq<(K, V)>, k: K) -> int {
    choose|i: int| 0 <= i < s.len() && s[i].0 == k
}

/// The association list `s` with the entry for `k` replaced in place, or
/// appended when `k` has no entry yet.
pub open spec fn spec_upsert<K, V>(s: Seq<(K, V)>, k: K, v: V) -> Seq<(K, V)> {
    if assoc_contains(s, k) {
        s.update(assoc_index_of(s, k), (k, v))
    } else {
        s.push((k, v))
    }
}

/// An upsert denotes inserting into the mapping, keeps keys unique, and
/// grows the list only for a fresh key.
pub proof fn lemma_assoc_upsert<K, V>(s: Seq<(K, V)>, k: K, v: V)
    requires
        assoc_keys_unique(s),
    ensures
        assoc_map(spec_upsert(s, k, v)) == assoc_map(s).insert(k, v),
        assoc_keys_unique(spec_upsert(s, k, v)),
        spec_upsert(s, k, v).len() == s.len() + if assoc_contains(s, k) {
            0int
        } else {
            1int
        },
{
    if assoc_contains(s, k) {
        let i = assoc_index_of(s, k);
        assert(0 <= i < s.len() && s[i].0 == k);
        lemma_assoc_map_update(s, i, k, v);
        lemma_assoc_update_unique(s, i, k, v);
    } else {
        lemma_assoc_map_push(s, k, v);
        lemma_assoc_push_unique(s, k, v);
    }
}

/// Represents the version of this package.
#[derive(Debug, PartialEq, Eq, Structural, Clone, Copy)]
pub struct PackageVersion {
    /// Major version number.
    pub major: u16,
    /// Minor version number.
    pub minor: u16,
    /// Patch version number.
    pub patch: u16,
}

impl PackageVersion {
    /// Constructs a new `PackageVersion` from its three components.
    pub fn new(major: u16, minor: u16, patch: u16) -> (r: Self)
        ensures
            r.major == major && r.minor == minor && r.patch == patch,
    {
        Self { major, minor, patch }
    }

    /// Returns the version of this package.
    pub fn from_env() -> (r: Self)
        ensures
            r.major == 0 && r.minor == 1 && r.patch == 0,
    {
        Self::new(0, 1, 0)
    }
}

} // verus!
