//! Conversions to the maps of the standard library.
//!
//! A map arrives as a flat list of keys and values, which converts to a
//! vector of pairs; the map is made of the pairs, in their order. What the
//! map then holds is stated for keys that the map can tell apart as the
//! model of the map requires: for a hash map, keys whose hashes and equality
//! obey the key model; for an ordered map, keys whose order obeys its laws.
use super::{pair_models_of, pairs_made_from, TryFromValue};
use crate::error::{ConversionError, Failure};
use crate::proto::Value;
use crate::wire::Wire;
use crate::KeyValue;
use std::collections::hash_map::RandomState;
use std::collections::{BTreeMap, HashMap};
use std::hash::Hash;
use vstd::laws_cmp::obeys_cmp;
use vstd::prelude::*;
use vstd::std_specs::hash::{builds_valid_hashers, obeys_key_model};

verus! {

/// The map that a list of pairs makes: each key with its value; of two pairs
/// with one key the later stays.
pub open spec fn entries_of<K, V>(pairs: Seq<KeyValue<K, V>>) -> Map<K, V>
    decreases pairs.len(),
{
    if pairs.len() == 0 {
        Map::empty()
    } else {
        entries_of(pairs.drop_last()).insert(pairs.last().0, pairs.last().1)
    }
}

/// What converting a value to a map yields, as far as it is told without
/// the keys: nothing where the pairs convert, and the failure of the pairs
/// where they do not.
pub open spec fn decoded_map<K: TryFromValue, V: TryFromValue>(w: Wire) -> Result<(), Failure> {
    match <Vec<KeyValue<K, V>> as TryFromValue>::decoded(w) {
        Ok(_) => Ok(()),
        Err(e) => Err(e),
    }
}

/// Whether a map is made of pairs that a value converts to: the value
/// converts to pairs, key by key and value by value, and, where the keys are
/// `lawful`, the map holds what the pairs make.
pub open spec fn made_of_pairs<K: TryFromValue, V: TryFromValue>(
    w: Wire,
    map: Map<K, V>,
    lawful: bool,
) -> bool {
    exists|pairs: Seq<KeyValue<K, V>>|
        {
            &&& <Vec<KeyValue<K, V>> as TryFromValue>::decoded(w) == Ok::<
                Seq<(K::Model, V::Model)>,
                Failure,
            >(#[trigger] pair_models_of(pairs))
            &&& w matches Wire::Collection(ws) ==> pairs_made_from(pairs, ws)
            &&& lawful ==> map == entries_of(pairs)
        }
}

/// The pairs that a value converts to make the map that they make.
pub proof fn lemma_made_of_pairs<K: TryFromValue, V: TryFromValue>(
    w: Wire,
    pairs: Seq<KeyValue<K, V>>,
    map: Map<K, V>,
    lawful: bool,
)
    requires
        <Vec<KeyValue<K, V>> as TryFromValue>::decoded(w) == Ok::<
            Seq<(K::Model, V::Model)>,
            Failure,
        >(pair_models_of(pairs)),
        w matches Wire::Collection(ws) ==> pairs_made_from(pairs, ws),
        lawful ==> map == entries_of(pairs),
    ensures
        made_of_pairs::<K, V>(w, map, lawful),
{
}

/// Makes a hash map of the pairs, in their order.
pub fn collect_hash_map<K: Eq + Hash, V>(pairs: Vec<KeyValue<K, V>>) -> (map: HashMap<K, V>)
    ensures
        obeys_key_model::<K>() ==> map@ == entries_of(pairs@),
{
    broadcast use vstd::std_specs::hash::axiom_random_state_builds_valid_hashers;

    let ghost all = pairs@;
    let mut map: HashMap<K, V> = HashMap::with_capacity(pairs.len());
    let ghost mut done: int = 0;
    assert(all.take(0) =~= Seq::<KeyValue<K, V>>::empty());
    for pair in it: pairs.into_iter()
        invariant
            it.seq() == all,
            done == it.index(),
            builds_valid_hashers::<RandomState>(),
            obeys_key_model::<K>() ==> map@ == entries_of(all.take(it.index())),
    {
        let ghost k = it.index();
        proof {
            assert(all.take(k + 1).drop_last() == all.take(k));
            assert(all.take(k + 1).last() == pair);
        }
        let (key, value) = pair.into_tuple();
        map.insert(key, value);
        proof {
            done = k + 1;
        }
    }
    assert(all.take(done) == all);
    map
}

/// Makes an ordered map of the pairs, in their order.
pub fn collect_btree_map<K: Ord, V>(pairs: Vec<KeyValue<K, V>>) -> (map: BTreeMap<K, V>)
    ensures
        obeys_cmp::<K>() ==> map@ == entries_of(pairs@),
{
    let ghost all = pairs@;
    let mut map: BTreeMap<K, V> = BTreeMap::new();
    let ghost mut done: int = 0;
    assert(all.take(0) =~= Seq::<KeyValue<K, V>>::empty());
    for pair in it: pairs.into_iter()
        invariant
            it.seq() == all,
            done == it.index(),
            obeys_cmp::<K>() ==> map@ == entries_of(all.take(it.index())),
    {
        let ghost k = it.index();
        proof {
            assert(all.take(k + 1).drop_last() == all.take(k));
            assert(all.take(k + 1).last() == pair);
        }
        let (key, value) = pair.into_tuple();
        map.insert(key, value);
        proof {
            done = k + 1;
        }
    }
    assert(all.take(done) == all);
    map
}

/// Converts a value representing a map into a hash map. The value converts
/// as it converts to a vector of pairs, and fails as that does; the map is
/// made of the pairs.
pub fn try_into_hash_map<K: TryFromValue + Eq + Hash, V: TryFromValue>(value: Value) -> (r: Result<
    HashMap<K, V>,
    ConversionError,
>)
    ensures
        match r {
            Ok(map) => made_of_pairs::<K, V>(value@, map@, obeys_key_model::<K>()),
            Err(e) => decoded_map::<K, V>(value@) == Err::<(), Failure>(e.kind@),
        },
{
    match value.try_into::<Vec<KeyValue<K, V>>>() {
        Ok(pairs) => {
            let ghost all = pairs@;
            let map = collect_hash_map(pairs);
            proof {
                lemma_made_of_pairs::<K, V>(value@, all, map@, obeys_key_model::<K>());
            }
            Ok(map)
        },
        Err(e) => Err(e),
    }
}

/// Converts a value representing a map into an ordered map. The value
/// converts as it converts to a vector of pairs, and fails as that does; the
/// map is made of the pairs.
pub fn try_into_btree_map<K: TryFromValue + Ord, V: TryFromValue>(value: Value) -> (r: Result<
    BTreeMap<K, V>,
    ConversionError,
>)
    ensures
        match r {
            Ok(map) => made_of_pairs::<K, V>(value@, map@, obeys_cmp::<K>()),
            Err(e) => decoded_map::<K, V>(value@) == Err::<(), Failure>(e.kind@),
        },
{
    match value.try_into::<Vec<KeyValue<K, V>>>() {
        Ok(pairs) => {
            let ghost all = pairs@;
            let map = collect_btree_map(pairs);
            proof {
                lemma_made_of_pairs::<K, V>(value@, all, map@, obeys_cmp::<K>());
            }
            Ok(map)
        },
        Err(e) => Err(e),
    }
}

/// A hash map converts as [`try_into_hash_map`] does. Its model is empty;
/// what the map holds is said by `made_from`.
impl<K: TryFromValue + Eq + Hash, V: TryFromValue> TryFromValue for HashMap<K, V> {
    type Model = ();

    open spec fn model(&self) -> () {
        ()
    }

    open spec fn decoded(w: Wire) -> Result<(), Failure> {
        decoded_map::<K, V>(w)
    }

    open spec fn made_from(&self, w: Wire) -> bool {
        made_of_pairs::<K, V>(w, self@, obeys_key_model::<K>())
    }

    fn try_from(value: Value) -> (r: Result<Self, ConversionError>) {
        try_into_hash_map(value)
    }
}

/// An ordered map converts as [`try_into_btree_map`] does. Its model is
/// empty; what the map holds is said by `made_from`.
impl<K: TryFromValue + Ord, V: TryFromValue> TryFromValue for BTreeMap<K, V> {
    type Model = ();

    open spec fn model(&self) -> () {
        ()
    }

    open spec fn decoded(w: Wire) -> Result<(), Failure> {
        decoded_map::<K, V>(w)
    }

    open spec fn made_from(&self, w: Wire) -> bool {
        made_of_pairs::<K, V>(w, self@, obeys_cmp::<K>())
    }

    fn try_from(value: Value) -> (r: Result<Self, ConversionError>) {
        try_into_btree_map(value)
    }
}

} // verus!
