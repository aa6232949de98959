//! Maps keyed by device id: what the registry and the relay need of a
//! hash map beyond looking up, inserting and removing one key.

use std::collections::HashMap;
use vstd::prelude::*;
use crate::protocol::DeviceId;

verus! {

broadcast use vstd::std_specs::hash::group_hash_axioms;

/// The keys of a map, each once, in the order the map is walked in.
pub fn keys_of<V>(m: &HashMap<DeviceId, V>) -> (keys: Vec<DeviceId>)
    ensures
        keys@.to_set() == m@.dom(),
        keys@.no_duplicates(),
        keys@.len() == m@.dom().len(),
{
    let mut keys: Vec<DeviceId> = Vec::new();
    for k in iter: m.keys()
        invariant
            iter.seq().unref().to_set() == m@.dom(),
            iter.seq().unref().no_duplicates(),
            iter.seq().unref().len() == iter.seq().len(),
            keys@ == iter.seq().unref().take(iter.index()),
            iter.index() == iter.seq().len() ==> keys@ == iter.seq().unref(),
    {
        assert(k == iter.seq()[iter.index()]);
        keys.push(*k);
        assert(keys@ =~= iter.seq().unref().take(iter.index() + 1));
        assert(iter.index() + 1 == iter.seq().len() ==> keys@ =~= iter.seq().unref());
    }
    proof {
        keys@.unique_seq_to_set();
    }
    keys
}

/// The smallest key.
pub fn min_key<V>(m: &HashMap<DeviceId, V>) -> (r: Option<DeviceId>)
    ensures
        match r {
            Some(least) => m@.dom().contains(least) && forall|k: DeviceId|
                m@.dom().contains(k) ==> least <= k,
            None => m@.dom() == Set::<DeviceId>::empty(),
        },
{
    let keys = keys_of(m);
    if keys.len() == 0 {
        assert(m@.dom() =~= Set::<DeviceId>::empty()) by {
            assert forall|k: DeviceId| !m@.dom().contains(k) by {
                if keys@.to_set().contains(k) {
                    assert(keys@.contains(k));
                }
            }
        }
        return None;
    }
    let mut least: DeviceId = keys[0];
    let mut i: usize = 1;
    while i < keys.len()
        invariant
            1 <= i <= keys.len(),
            keys@.contains(least),
            forall|j: int| 0 <= j < i ==> least <= keys@[j],
        decreases keys.len() - i,
    {
        if keys[i] < least {
            least = keys[i];
        }
        i = i + 1;
    }
    proof {
        assert(keys@.to_set().contains(least));
        assert forall|k: DeviceId| m@.dom().contains(k) implies least <= k by {
            assert(keys@.to_set().contains(k));
            assert(keys@.contains(k));
            let j = choose|j: int| 0 <= j < keys@.len() && keys@[j] == k;
            assert(least <= keys@[j]);
        }
    }
    Some(least)
}

/// Takes out every entry whose value is `value`, and no other.
pub fn remove_value(m: &mut HashMap<DeviceId, DeviceId>, value: DeviceId)
    ensures
        final(m)@ == old(m)@.restrict(
            Set::new(|k: DeviceId| old(m)@.dom().contains(k) && old(m)@[k] != value),
        ),
{
    let keys = keys_of(m);
    let ghost keep = Set::new(|k: DeviceId| old(m)@.dom().contains(k) && old(m)@[k] != value);
    let mut i: usize = 0;
    while i < keys.len()
        invariant
            i <= keys.len(),
            keys@.to_set() == old(m)@.dom(),
            keep == Set::new(|k: DeviceId| old(m)@.dom().contains(k) && old(m)@[k] != value),
            forall|k: DeviceId| #[trigger]
                m@.dom().contains(k) ==> old(m)@.dom().contains(k) && m@[k] == old(m)@[k],
            forall|k: DeviceId| keep.contains(k) ==> #[trigger] m@.dom().contains(k),
            forall|j: int|
                0 <= j < i ==> !(m@.dom().contains(#[trigger] keys@[j]) && m@[keys@[j]] == value),
        decreases keys.len() - i,
    {
        let key = keys[i];
        let hit = match m.get(&key) {
            Some(v) => *v == value,
            None => false,
        };
        if hit {
            m.remove(&key);
        }
        i = i + 1;
    }
    proof {
        assert forall|k: DeviceId| m@.dom().contains(k) implies keep.contains(k) by {
            assert(keys@.to_set().contains(k));
            assert(keys@.contains(k));
            let j = choose|j: int| 0 <= j < keys@.len() && keys@[j] == k;
            assert(!(m@.dom().contains(keys@[j]) && m@[keys@[j]] == value));
        }
        assert(m@ =~= old(m)@.restrict(keep));
    }
}

} // verus!
