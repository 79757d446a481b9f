//! Association sequences: each store of the two data sources is a sequence of
//! key/value pairs, read through `assoc_find` (first match wins). Keys are
//! either plain copyable identifiers or byte strings compared by content.

use vstd::prelude::*;

verus! {

/// The value paired with the first occurrence of `key`, if any.
pub open spec fn assoc_find<K, V>(s: Seq<(K, V)>, key: K) -> Option<V>
    decreases s.len(),
{
    if s.len() == 0 {
        None
    } else if s[0].0 == key {
        Some(s[0].1)
    } else {
        assoc_find(s.drop_first(), key)
    }
}

/// The value paired with the first byte-string key equal to `key`, if any.
pub open spec fn assoc_find_bytes<V>(s: Seq<(Vec<u8>, V)>, key: Seq<u8>) -> Option<V>
    decreases s.len(),
{
    if s.len() == 0 {
        None
    } else if s[0].0@ == key {
        Some(s[0].1)
    } else {
        assoc_find_bytes(s.drop_first(), key)
    }
}

/// Walking past a non-matching entry leaves the lookup's answer unchanged.
pub proof fn lemma_assoc_find_step<K, V>(s: Seq<(K, V)>, key: K, i: int)
    requires
        0 <= i < s.len(),
        s[i].0 != key,
    ensures
        assoc_find(s.skip(i), key) == assoc_find(s.skip(i + 1), key),
{
    assert(s.skip(i)[0] == s[i]);
    assert(s.skip(i).drop_first() =~= s.skip(i + 1));
}

/// Walking past a non-matching byte-string entry leaves the answer unchanged.
pub proof fn lemma_assoc_find_bytes_step<V>(s: Seq<(Vec<u8>, V)>, key: Seq<u8>, i: int)
    requires
        0 <= i < s.len(),
        s[i].0@ != key,
    ensures
        assoc_find_bytes(s.skip(i), key) == assoc_find_bytes(s.skip(i + 1), key),
{
    assert(s.skip(i)[0] == s[i]);
    assert(s.skip(i).drop_first() =~= s.skip(i + 1));
}

} // verus!
