//! Conversions of the maps of the standard library.
//!
//! A map hands out its entries, and the entries convert as a vector of pairs
//! does: key, value, key, value, ... A hash map hands them out in an order
//! of its own, which is not stated; an ordered map in the order of its keys.
use super::{encoded_pairs, IntoValue};
use crate::proto::Value;
use crate::wire::Wire;
use std::collections::{BTreeMap, HashMap};
use vstd::laws_cmp::obeys_cmp;
use vstd::prelude::*;
use vstd::std_specs::btree::increasing_seq;
use vstd::std_specs::hash::obeys_key_model;

verus! {

/// Whether `pairs` lists the entries of `map`: each pair is an entry, no key
/// occurs twice, and every key of the map occurs.
pub open spec fn lists_entries<K, V>(pairs: Seq<(K, V)>, map: Map<K, V>) -> bool {
    &&& forall|i: int|
        0 <= i < pairs.len() ==> map.contains_pair((#[trigger] pairs[i]).0, pairs[i].1)
    &&& forall|i: int, j: int|
        0 <= i < j < pairs.len() ==> (#[trigger] pairs[i]).0 != (#[trigger] pairs[j]).0
    &&& forall|k: K|
        map.contains_key(k) ==> exists|i: int| 0 <= i < pairs.len() && (#[trigger] pairs[i]).0 == k
}

/// The keys of the pairs, in order.
pub open spec fn keys_of<K, V>(pairs: Seq<(K, V)>) -> Seq<K> {
    Seq::new(pairs.len(), |i: int| pairs[i].0)
}

/// `HashMap::into_iter`, collected into a vector: the entries of the map, each
/// moved out once, in an arbitrary order. For keys that obey the key model of
/// the map, the vector lists the entries of the view of the map.
#[verifier::external_body]
fn hash_map_entries<K, V>(map: HashMap<K, V>) -> (pairs: Vec<(K, V)>)
    ensures
        obeys_key_model::<K>() ==> lists_entries(pairs@, map@),
{
    map.into_iter().collect()
}

/// `BTreeMap::into_iter`, collected into a vector: the entries of the map,
/// each moved out once, sorted by key. For keys whose order obeys its laws,
/// the vector lists the entries of the view of the map, and its keys
/// increase.
#[verifier::external_body]
fn btree_map_entries<K: Ord, V>(map: BTreeMap<K, V>) -> (pairs: Vec<(K, V)>)
    ensures
        obeys_cmp::<K>() ==> lists_entries(pairs@, map@) && increasing_seq(keys_of(pairs@)),
{
    map.into_iter().collect()
}

impl Value {
    /// Converts a hash map to a CQL `map` value whose keys and values have
    /// the types that `_key_type` and `_value_type` name.
    ///
    /// The value is that of the entries of the map in some order: the order
    /// in which the map hands them out.
    pub fn from_hash_map<CK, CV, RK: IntoValue<CK>, RV: IntoValue<CV>>(
        _key_type: CK,
        _value_type: CV,
        map: HashMap<RK, RV>,
    ) -> (v: Value)
        ensures
            exists|pairs: Seq<(RK, RV)>|
                {
                    &&& v@ == Wire::Collection(#[trigger] encoded_pairs::<RK, RV, CK, CV>(pairs))
                    &&& obeys_key_model::<RK>() ==> lists_entries(pairs, map@)
                },
    {
        let pairs = hash_map_entries(map);
        let ghost listed = pairs@;
        let v = Value::map_of(_key_type, _value_type, pairs);
        assert(v@ == Wire::Collection(encoded_pairs::<RK, RV, CK, CV>(listed)));
        v
    }

    /// Converts an ordered map to a CQL `map` value whose keys and values
    /// have the types that `_key_type` and `_value_type` name.
    ///
    /// The value is that of the entries of the map in the order of their
    /// keys.
    pub fn from_btree_map<CK, CV, RK: IntoValue<CK> + Ord, RV: IntoValue<CV>>(
        _key_type: CK,
        _value_type: CV,
        map: BTreeMap<RK, RV>,
    ) -> (v: Value)
        ensures
            exists|pairs: Seq<(RK, RV)>|
                {
                    &&& v@ == Wire::Collection(#[trigger] encoded_pairs::<RK, RV, CK, CV>(pairs))
                    &&& obeys_cmp::<RK>() ==> lists_entries(pairs, map@) && increasing_seq(
                        keys_of(pairs),
                    )
                },
    {
        let pairs = btree_map_entries(map);
        let ghost listed = pairs@;
        let v = Value::map_of(_key_type, _value_type, pairs);
        assert(v@ == Wire::Collection(encoded_pairs::<RK, RV, CK, CV>(listed)));
        v
    }
}

} // verus!
