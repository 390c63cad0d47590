//! Maps from keys to lights or models, and the order in which such a map
//! is walked.

use std::collections::HashMap;
use vstd::prelude::*;
use vstd::std_specs::hash::{into_iter, spec_hash_map_iter};
use vstd::std_specs::iter::IteratorSpec;

verus! {

/// The entries of a map in the order in which the map is walked. The order
/// is the map's own: it stays as long as the map is not changed.
pub open spec fn walk<T>(map: &HashMap<usize, T>) -> Seq<(usize, T)> {
    into_iter(spec_hash_map_iter(map))
}

/// Whether the entries are those of the map, each once.
pub open spec fn is_walk_of<T>(entries: Seq<(usize, T)>, map: Map<usize, T>) -> bool {
    &&& forall|i: int|
        0 <= i < entries.len() ==> map.contains_key((#[trigger] entries[i]).0) && map[entries[i].0]
            == entries[i].1
    &&& forall|i: int, j: int|
        0 <= i < j < entries.len() ==> (#[trigger] entries[i]).0 != (#[trigger] entries[j]).0
    &&& forall|key: usize| #[trigger]
        map.contains_key(key) ==> exists|i: int|
            0 <= i < entries.len() && (#[trigger] entries[i]).0 == key
}

/// The value that a map holds for a key, for changing it in place.
///
/// This calls `HashMap::get_mut` of the standard library, of which it is
/// taken on trust that it hands out the value held for the key if there is
/// one, and nothing else; that what the caller writes through the
/// reference is what the map holds for the key afterwards; and that the
/// map is otherwise as before.
#[verifier::external_body]
pub(crate) fn value_mut<T>(map: &mut HashMap<usize, T>, key: usize) -> (found: Option<&mut T>)
    ensures
        match found {
            Some(value) => {
                &&& old(map)@.contains_key(key)
                &&& *value == old(map)@[key]
                &&& final(map)@ == old(map)@.insert(key, *final(value))
            },
            None => !old(map)@.contains_key(key) && final(map)@ == old(map)@,
        },
{
    map.get_mut(&key)
}

/// The keys of a map in the order in which the map is walked. Every key
/// of the map comes once, with the value that the map holds for it.
pub fn keys_of<T>(map: &HashMap<usize, T>) -> (keys: Vec<usize>)
    ensures
        keys@.len() == walk(map).len(),
        forall|i: int| 0 <= i < keys@.len() ==> #[trigger] keys@[i] == walk(map)[i].0,
        is_walk_of(walk(map), map@),
{
    broadcast use vstd::std_specs::hash::group_hash_axioms;

    let mut keys: Vec<usize> = Vec::new();
    for pair in iter: map.iter()
        invariant
            iter.seq().unref() == walk(map),
            keys@.len() == iter.index(),
            forall|i: int| 0 <= i < keys@.len() ==> #[trigger] keys@[i] == *iter.seq()[i].0,
    {
        let (key, _) = pair;
        keys.push(*key);
    }
    proof {
        let refs = spec_hash_map_iter(map).remaining();
        let entries = walk(map);
        assert(entries =~= refs.unref());
        assert forall|i: int, j: int| 0 <= i < j < entries.len() implies (#[trigger] entries[i]).0
            != (#[trigger] entries[j]).0 by {
            if entries[i].0 == entries[j].0 {
                assert(map@[*refs[i].0] == *refs[i].1);
                assert(map@[*refs[j].0] == *refs[j].1);
                assert(refs[i] == refs[j]);
            }
        }
        assert forall|key: usize| #[trigger] map@.contains_key(key) implies exists|i: int|
            0 <= i < entries.len() && (#[trigger] entries[i]).0 == key by {
            assert(refs.contains((&key, &map@[key])));
            let i = choose|i: int| 0 <= i < refs.len() && refs[i] == (&key, &map@[key]);
            assert(entries[i].0 == key);
        }
    }
    keys
}

} // verus!
