//! Association lists keyed by identity tokens.
//!
//! Assets, entities and GPU resources are referred to by opaque `u64`
//! identity tokens. The frame state keeps small keyed collections of them
//! as vectors of pairs, looked up by first match.

use vstd::prelude::*;

verus! {

/// The value stored under a key: the first entry that carries it.
pub open spec fn spec_assoc_lookup<V>(entries: Seq<(u64, V)>, key: u64) -> Option<V>
    decreases entries.len(),
{
    if entries.len() == 0 {
        None
    } else if entries[0].0 == key {
        Some(entries[0].1)
    } else {
        spec_assoc_lookup(entries.drop_first(), key)
    }
}

/// Appending an entry never disturbs the binding of a key that is already
/// bound, binds an unbound key iff the new entry carries it, and leaves
/// every other unbound key unbound.
pub proof fn lemma_assoc_lookup_push<V>(entries: Seq<(u64, V)>, key: u64, entry: (u64, V))
    ensures
        spec_assoc_lookup(entries, key) is Some ==> spec_assoc_lookup(entries.push(entry), key)
            == spec_assoc_lookup(entries, key),
        spec_assoc_lookup(entries, key) is None && entry.0 == key ==> spec_assoc_lookup(
            entries.push(entry),
            key,
        ) == Some(entry.1),
        spec_assoc_lookup(entries, key) is None && entry.0 != key ==> spec_assoc_lookup(
            entries.push(entry),
            key,
        ) is None,
    decreases entries.len(),
{
    let pushed = entries.push(entry);
    if entries.len() == 0 {
        assert(pushed[0] == entry);
        assert(pushed.drop_first() =~= Seq::<(u64, V)>::empty());
    } else {
        assert(pushed[0] == entries[0]);
        assert(pushed.drop_first() =~= entries.drop_first().push(entry));
        lemma_assoc_lookup_push(entries.drop_first(), key, entry);
    }
}

/// Finds the index of the first entry bound to `key`, if any.
pub fn assoc_index<V>(entries: &Vec<(u64, V)>, key: u64) -> (r: Option<usize>)
    ensures
        match r {
            Some(i) => {
                &&& i < entries@.len()
                &&& entries@[i as int].0 == key
                &&& spec_assoc_lookup(entries@, key) == Some(entries@[i as int].1)
            },
            None => spec_assoc_lookup(entries@, key) is None,
        },
{
    proof {
        assert(entries@.skip(0) =~= entries@);
    }
    let mut i: usize = 0;
    while i < entries.len()
        invariant
            i <= entries@.len(),
            spec_assoc_lookup(entries@, key) == spec_assoc_lookup(entries@.skip(i as int), key),
        decreases entries@.len() - i,
    {
        proof {
            assert(entries@.skip(i as int).drop_first() =~= entries@.skip(i as int + 1));
            assert(entries@.skip(i as int)[0] == entries@[i as int]);
        }
        if entries[i].0 == key {
            return Some(i);
        }
        i = i + 1;
    }
    proof {
        assert(entries@.skip(entries@.len() as int) =~= Seq::<(u64, V)>::empty());
    }
    None
}

} // verus!
