//! What holds of all conversions.
//!
//! [`RoundTrip`]: a value that is converted to the wire and back is the value
//! it was. [`RejectsAbsent`]: `null`, `unset` and a value without a variant
//! convert to `None` and to a `Value`, and to nothing else. The parameters of
//! a statement are bound by position or by name, never both.
use crate::error::Failure;
use crate::from_value::{
    decoded_pairs, decoded_seq, exact_items_of, models_of, pair_models_of, TryFromValue,
};
use crate::into_value::{
    encoded_key_values, encoded_pairs, encoded_seq, DefaultGrpcType, IntoValue,
};
use crate::proto::{Decimal, Inet, UdtValue, Uuid, Value, Varint};
use crate::query::Bound;
use crate::record::{field_read, DefaultPolicy};
use crate::types;
use crate::types::ConcreteType;
use crate::udt::{
    collected, distinct_names, field_of, lemma_collected_of_distinct, lemma_first_named_is,
};
use crate::wire::Wire;
use crate::{Float32, Float64, KeyValue};
use std::collections::{BTreeMap, HashMap};
use std::hash::Hash;
use vstd::prelude::*;

mod tuples;

verus! {

/// A type whose values come back from the wire as they went: converting a
/// value to the gRPC type `C` and converting the result back yields the value.
pub trait RoundTrip<C>: IntoValue<C> + TryFromValue {
    /// Whether this value comes back. A scalar always does. An option does
    /// not where it holds a value that becomes `null`, `unset` or a value
    /// without a variant, for that comes back as `None`.
    spec fn comes_back(&self) -> bool;

    /// Converting to the wire and back is the identity.
    proof fn round_trip(x: Self)
        requires
            x.comes_back(),
        ensures
            Self::decoded(<Self as IntoValue<C>>::encoded(&x)) == Ok::<Self::Model, Failure>(
                x.model(),
            ),
    ;
}

/// A type that cannot stand for "no value": converting `null`, `unset` or a
/// value without a variant to it fails as incompatible.
pub trait RejectsAbsent: TryFromValue {
    proof fn absent_is_incompatible(w: Wire)
        requires
            w.is_absent(),
        ensures
            Self::decoded(w) == Err::<Self::Model, Failure>(Failure::Incompatible),
    ;
}

/// Converting `null`, `unset` or a value without a variant to an option
/// yields `None`, whatever the type of the option.
pub proof fn lemma_absent_is_none<T: TryFromValue>(w: Wire)
    requires
        w.is_absent(),
    ensures
        <Option<T> as TryFromValue>::decoded(w) == Ok::<Option<T::Model>, Failure>(None),
{
}

/// A value that is there converts to an option as it converts to the type of
/// the option.
pub proof fn lemma_present_is_some<T: TryFromValue>(w: Wire)
    requires
        !w.is_absent(),
    ensures
        <Option<T> as TryFromValue>::decoded(w) == match T::decoded(w) {
            Ok(x) => Ok::<Option<T::Model>, Failure>(Some(x)),
            Err(e) => Err::<Option<T::Model>, Failure>(e),
        },
{
}

/// No `Double` converts to a `Float32`, and no `Float` to a `Float64`: a
/// number is never narrowed or widened on the way.
pub proof fn lemma_precision_is_kept(bits32: u32, bits64: u64)
    ensures
        <Float32 as TryFromValue>::decoded(Wire::Double(bits64)) == Err::<u32, Failure>(
            Failure::Incompatible,
        ),
        <Float64 as TryFromValue>::decoded(Wire::Float(bits32)) == Err::<u64, Failure>(
            Failure::Incompatible,
        ),
        <Float32 as TryFromValue>::decoded(Wire::Float(bits32)) == Ok::<u32, Failure>(bits32),
        <Float64 as TryFromValue>::decoded(Wire::Double(bits64)) == Ok::<u64, Failure>(bits64),
{
}

/// A map of `n` entries is a collection of `2n` items: item `2i` is key `i`,
/// item `2i + 1` is value `i`.
pub proof fn lemma_map_is_flat<RK: IntoValue<CK>, RV: IntoValue<CV>, CK, CV>(pairs: Seq<(RK, RV)>)
    ensures
        encoded_pairs::<RK, RV, CK, CV>(pairs).len() == 2 * pairs.len(),
        forall|i: int|
            0 <= i < pairs.len() ==> encoded_pairs::<RK, RV, CK, CV>(pairs)[2 * i]
                == (#[trigger] pairs[i]).0.encoded() && encoded_pairs::<RK, RV, CK, CV>(pairs)[2
                * i + 1] == pairs[i].1.encoded(),
{
    assert forall|i: int| 0 <= i < pairs.len() implies encoded_pairs::<RK, RV, CK, CV>(pairs)[2 * i]
        == (#[trigger] pairs[i]).0.encoded() && encoded_pairs::<RK, RV, CK, CV>(pairs)[2 * i + 1]
        == pairs[i].1.encoded() by {
        assert((2 * i) % 2 == 0 && (2 * i) / 2 == i);
        assert((2 * i + 1) % 2 == 1 && (2 * i + 1) / 2 == i);
    }
}

/// A collection of an odd number of items is no map.
pub proof fn lemma_odd_is_no_map<K: TryFromValue, V: TryFromValue>(ws: Seq<Wire>)
    requires
        ws.len() % 2 == 1,
    ensures
        <Vec<KeyValue<K, V>> as TryFromValue>::decoded(Wire::Collection(ws)) == Err::<
            Seq<(K::Model, V::Model)>,
            Failure,
        >(Failure::Incompatible),
{
}

/// A collection of `actual` items converts to nothing that takes exactly
/// `expected` items, where the two differ: the number of items is wrong.
pub proof fn lemma_arity_is_exact(ws: Seq<Wire>, expected: nat)
    requires
        ws.len() != expected,
    ensures
        exact_items_of(Wire::Collection(ws), expected) == Err::<Seq<Wire>, Failure>(
            Failure::WrongNumberOfItems { actual: ws.len(), expected },
        ),
{
}

/// The sixteen bytes of a UUID come back as they went.
pub proof fn lemma_uuid_bytes_round_trip(bytes: [u8; 16])
    ensures
        <[u8; 16] as TryFromValue>::decoded(<&[u8; 16] as IntoValue<types::Uuid>>::encoded(&&bytes))
            == Ok::<Seq<u8>, Failure>(bytes@),
{
    vstd::array::array_len_matches_n(&bytes);
}

/// A string slice comes back as the string it spells.
pub proof fn lemma_str_round_trip(text: &str)
    ensures
        <String as TryFromValue>::decoded(<&str as IntoValue<types::Text>>::encoded(&text))
            == Ok::<Seq<char>, Failure>(text@),
{
}

impl RoundTrip<types::Boolean> for bool {
    open spec fn comes_back(&self) -> bool {
        true
    }

    proof fn round_trip(x: Self) {
    }
}

impl RoundTrip<types::Int> for i64 {
    open spec fn comes_back(&self) -> bool {
        true
    }

    proof fn round_trip(x: Self) {
    }
}

impl RoundTrip<types::Bigint> for i64 {
    open spec fn comes_back(&self) -> bool {
        true
    }

    proof fn round_trip(x: Self) {
    }
}

impl RoundTrip<types::Counter> for i64 {
    open spec fn comes_back(&self) -> bool {
        true
    }

    proof fn round_trip(x: Self) {
    }
}

impl RoundTrip<types::Timestamp> for i64 {
    open spec fn comes_back(&self) -> bool {
        true
    }

    proof fn round_trip(x: Self) {
    }
}

impl RoundTrip<types::Int> for i32 {
    open spec fn comes_back(&self) -> bool {
        true
    }

    proof fn round_trip(x: Self) {
    }
}

impl RoundTrip<types::Bigint> for i32 {
    open spec fn comes_back(&self) -> bool {
        true
    }

    proof fn round_trip(x: Self) {
    }
}

impl RoundTrip<types::Int> for i16 {
    open spec fn comes_back(&self) -> bool {
        true
    }

    proof fn round_trip(x: Self) {
    }
}

impl RoundTrip<types::Bigint> for i16 {
    open spec fn comes_back(&self) -> bool {
        true
    }

    proof fn round_trip(x: Self) {
    }
}

impl RoundTrip<types::Smallint> for i16 {
    open spec fn comes_back(&self) -> bool {
        true
    }

    proof fn round_trip(x: Self) {
    }
}

impl RoundTrip<types::Int> for i8 {
    open spec fn comes_back(&self) -> bool {
        true
    }

    proof fn round_trip(x: Self) {
    }
}

impl RoundTrip<types::Bigint> for i8 {
    open spec fn comes_back(&self) -> bool {
        true
    }

    proof fn round_trip(x: Self) {
    }
}

impl RoundTrip<types::Smallint> for i8 {
    open spec fn comes_back(&self) -> bool {
        true
    }

    proof fn round_trip(x: Self) {
    }
}

impl RoundTrip<types::Tinyint> for i8 {
    open spec fn comes_back(&self) -> bool {
        true
    }

    proof fn round_trip(x: Self) {
    }
}

impl RoundTrip<types::Int> for u16 {
    open spec fn comes_back(&self) -> bool {
        true
    }

    proof fn round_trip(x: Self) {
    }
}

impl RoundTrip<types::Bigint> for u16 {
    open spec fn comes_back(&self) -> bool {
        true
    }

    proof fn round_trip(x: Self) {
    }
}

impl RoundTrip<types::Date> for u32 {
    open spec fn comes_back(&self) -> bool {
        true
    }

    proof fn round_trip(x: Self) {
    }
}

impl RoundTrip<types::Time> for u64 {
    open spec fn comes_back(&self) -> bool {
        true
    }

    proof fn round_trip(x: Self) {
    }
}

impl RoundTrip<types::Float> for Float32 {
    open spec fn comes_back(&self) -> bool {
        true
    }

    proof fn round_trip(x: Self) {
    }
}

impl RoundTrip<types::Double> for Float64 {
    open spec fn comes_back(&self) -> bool {
        true
    }

    proof fn round_trip(x: Self) {
    }
}

impl RoundTrip<types::Text> for String {
    open spec fn comes_back(&self) -> bool {
        true
    }

    proof fn round_trip(x: Self) {
    }
}

impl RoundTrip<types::Varchar> for String {
    open spec fn comes_back(&self) -> bool {
        true
    }

    proof fn round_trip(x: Self) {
    }
}

impl RoundTrip<types::Blob> for Vec<u8> {
    open spec fn comes_back(&self) -> bool {
        true
    }

    proof fn round_trip(x: Self) {
    }
}

impl RoundTrip<types::Decimal> for Decimal {
    open spec fn comes_back(&self) -> bool {
        true
    }

    proof fn round_trip(x: Self) {
    }
}

impl RoundTrip<types::Inet> for Inet {
    open spec fn comes_back(&self) -> bool {
        true
    }

    proof fn round_trip(x: Self) {
    }
}

impl RoundTrip<types::Udt> for UdtValue {
    open spec fn comes_back(&self) -> bool {
        true
    }

    proof fn round_trip(x: Self) {
    }
}

impl RoundTrip<types::Uuid> for Uuid {
    open spec fn comes_back(&self) -> bool {
        true
    }

    proof fn round_trip(x: Self) {
    }
}

impl RoundTrip<types::Varint> for Varint {
    open spec fn comes_back(&self) -> bool {
        true
    }

    proof fn round_trip(x: Self) {
    }
}

impl RejectsAbsent for bool {
    proof fn absent_is_incompatible(w: Wire) {
    }
}

impl RejectsAbsent for i64 {
    proof fn absent_is_incompatible(w: Wire) {
    }
}

impl RejectsAbsent for i32 {
    proof fn absent_is_incompatible(w: Wire) {
    }
}

impl RejectsAbsent for i16 {
    proof fn absent_is_incompatible(w: Wire) {
    }
}

impl RejectsAbsent for i8 {
    proof fn absent_is_incompatible(w: Wire) {
    }
}

impl RejectsAbsent for u16 {
    proof fn absent_is_incompatible(w: Wire) {
    }
}

impl RejectsAbsent for u32 {
    proof fn absent_is_incompatible(w: Wire) {
    }
}

impl RejectsAbsent for u64 {
    proof fn absent_is_incompatible(w: Wire) {
    }
}

impl RejectsAbsent for Float32 {
    proof fn absent_is_incompatible(w: Wire) {
    }
}

impl RejectsAbsent for Float64 {
    proof fn absent_is_incompatible(w: Wire) {
    }
}

impl RejectsAbsent for String {
    proof fn absent_is_incompatible(w: Wire) {
    }
}

impl RejectsAbsent for Vec<u8> {
    proof fn absent_is_incompatible(w: Wire) {
    }
}

impl RejectsAbsent for Decimal {
    proof fn absent_is_incompatible(w: Wire) {
    }
}

impl RejectsAbsent for Inet {
    proof fn absent_is_incompatible(w: Wire) {
    }
}

impl RejectsAbsent for UdtValue {
    proof fn absent_is_incompatible(w: Wire) {
    }
}

impl RejectsAbsent for Uuid {
    proof fn absent_is_incompatible(w: Wire) {
    }
}

impl RejectsAbsent for Varint {
    proof fn absent_is_incompatible(w: Wire) {
    }
}

impl RejectsAbsent for [u8; 16] {
    proof fn absent_is_incompatible(w: Wire) {
    }
}

/// A value comes back as it went.
impl RoundTrip<types::Any> for Value {
    open spec fn comes_back(&self) -> bool {
        true
    }

    proof fn round_trip(x: Self) {
    }
}

/// Under `Any`, a type comes back as it does under its default.
impl<R> RoundTrip<types::Any> for R where
    R: DefaultGrpcType + RoundTrip<<R as DefaultGrpcType>::C>,
 {
    open spec fn comes_back(&self) -> bool {
        <R as RoundTrip<<R as DefaultGrpcType>::C>>::comes_back(self)
    }

    proof fn round_trip(x: Self) {
        <R as RoundTrip<<R as DefaultGrpcType>::C>>::round_trip(x);
    }
}

/// `None` comes back. `Some(x)` comes back where `x` does and is not taken
/// for "no value" on the wire.
impl<R: RoundTrip<C>, C: ConcreteType> RoundTrip<C> for Option<R> {
    open spec fn comes_back(&self) -> bool {
        match self {
            None => true,
            Some(x) => x.comes_back() && !x.encoded().is_absent(),
        }
    }

    proof fn round_trip(x: Self) {
        match x {
            None => {},
            Some(inner) => {
                R::round_trip(inner);
            },
        }
    }
}

/// Whether all items come back.
pub open spec fn all_come_back<R: RoundTrip<C>, C>(items: Seq<R>) -> bool {
    forall|i: int| 0 <= i < items.len() ==> (#[trigger] items[i]).comes_back()
}

/// Items that all come back, come back in their order.
pub proof fn lemma_seq_round_trip<R: RoundTrip<C>, C>(items: Seq<R>)
    requires
        all_come_back::<R, C>(items),
    ensures
        decoded_seq::<R>(encoded_seq::<R, C>(items)) == Ok::<Seq<R::Model>, Failure>(
            models_of(items),
        ),
    decreases items.len(),
{
    let ws = encoded_seq::<R, C>(items);
    if items.len() == 0 {
        assert(models_of(items) =~= Seq::<R::Model>::empty());
    } else {
        let front = items.drop_last();
        assert(forall|i: int| 0 <= i < front.len() ==> front[i] == items[i]);
        lemma_seq_round_trip::<R, C>(front);
        assert(ws.drop_last() =~= encoded_seq::<R, C>(front));
        assert(items.last().comes_back());
        R::round_trip(items.last());
        assert(models_of(items) =~= models_of(front).push(items.last().model()));
    }
}

/// A list comes back where all its items do.
impl<R: RoundTrip<C>, C> RoundTrip<types::List<C>> for Vec<R> {
    open spec fn comes_back(&self) -> bool {
        all_come_back::<R, C>(self@)
    }

    proof fn round_trip(x: Self) {
        lemma_seq_round_trip::<R, C>(x@);
    }
}

/// A set comes back where all its items do.
impl<R: RoundTrip<C>, C> RoundTrip<types::SetOf<C>> for Vec<R> {
    open spec fn comes_back(&self) -> bool {
        all_come_back::<R, C>(self@)
    }

    proof fn round_trip(x: Self) {
        lemma_seq_round_trip::<R, C>(x@);
    }
}

/// Whether all keys and all values come back.
pub open spec fn all_pairs_come_back<K: RoundTrip<CK>, V: RoundTrip<CV>, CK, CV>(
    pairs: Seq<KeyValue<K, V>>,
) -> bool {
    forall|i: int|
        0 <= i < pairs.len() ==> (#[trigger] pairs[i]).0.comes_back() && pairs[i].1.comes_back()
}

/// The first `n` of pairs that all come back, come back in their order.
pub proof fn lemma_pairs_round_trip<K: RoundTrip<CK>, V: RoundTrip<CV>, CK, CV>(
    pairs: Seq<KeyValue<K, V>>,
    n: nat,
)
    requires
        all_pairs_come_back::<K, V, CK, CV>(pairs),
        n <= pairs.len(),
    ensures
        decoded_pairs::<K, V>(encoded_key_values::<K, V, CK, CV>(pairs), n) == Ok::<
            Seq<(K::Model, V::Model)>,
            Failure,
        >(pair_models_of(pairs.take(n as int))),
    decreases n,
{
    let ws = encoded_key_values::<K, V, CK, CV>(pairs);
    if n == 0 {
        assert(pair_models_of(pairs.take(0)) =~= Seq::<(K::Model, V::Model)>::empty());
    } else {
        let m: int = n - 1;
        lemma_pairs_round_trip::<K, V, CK, CV>(pairs, m as nat);
        let last = pairs[m];
        assert(last.0.comes_back() && last.1.comes_back());
        K::round_trip(last.0);
        V::round_trip(last.1);
        assert((2 * m) % 2 == 0 && (2 * m) / 2 == m);
        assert((2 * m + 1) % 2 == 1 && (2 * m + 1) / 2 == m);
        assert(ws[2 * m] == last.0.encoded());
        assert(ws[2 * m + 1] == last.1.encoded());
        assert(pair_models_of(pairs.take(n as int)) =~= pair_models_of(pairs.take(m)).push(
            (last.0.model(), last.1.model()),
        ));
    }
}

/// A map comes back, pair by pair in its order, where all its keys and
/// values do.
impl<K: RoundTrip<CK>, V: RoundTrip<CV>, CK, CV> RoundTrip<types::MapOf<CK, CV>> for Vec<
    KeyValue<K, V>,
> {
    open spec fn comes_back(&self) -> bool {
        all_pairs_come_back::<K, V, CK, CV>(self@)
    }

    proof fn round_trip(x: Self) {
        let ws = encoded_key_values::<K, V, CK, CV>(x@);
        assert(ws.len() == 2 * x@.len());
        assert(ws.len() % 2 == 0 && ws.len() / 2 == x@.len());
        lemma_pairs_round_trip::<K, V, CK, CV>(x@, x@.len());
        assert(x@.take(x@.len() as int) == x@);
    }
}

/// Values are bound by position or by name, never both.
pub proof fn lemma_binding_is_exclusive(bound: Bound)
    requires
        bound.wf(),
    ensures
        !(bound.is_named() && bound.is_positional()),
{
}

/// Where a value is bound by position, none may be bound by name: what
/// `bind_name` requires does not hold, on a query and on a batch.
pub proof fn lemma_positions_exclude_names(bound: Bound)
    requires
        bound.is_positional(),
    ensures
        !bound.takes_names(),
{
}

/// Where a value is bound by name, none may be bound by position: what
/// `bind` and `bind_ith` require does not hold, whatever the position.
pub proof fn lemma_names_exclude_positions(bound: Bound)
    requires
        bound.is_named(),
    ensures
        !bound.takes_positions(),
{
}

/// Binding by position leaves values bound by position, so that none may be
/// bound by name after it.
pub proof fn lemma_no_name_after_position(bound: Bound, index: int, w: Wire)
    requires
        bound.takes_positions(),
        0 <= index,
    ensures
        bound.with_ith(index, w).is_positional(),
        !bound.with_ith(index, w).takes_names(),
        bound.with_ith(index, w).wf(),
{
}

/// Binding values by position at once leaves values bound by position, so
/// that none may be bound by name after it.
pub proof fn lemma_no_name_after_positions(bound: Bound, more: Bound)
    requires
        bound.takes_positions(),
        !more.is_named(),
        more.values.len() > 0,
    ensures
        bound.extended(more).is_positional(),
        !bound.extended(more).takes_names(),
        bound.extended(more).wf(),
{
}

/// Binding by name leaves values bound by name, so that none may be bound by
/// position after it.
pub proof fn lemma_no_position_after_name(bound: Bound, name: Seq<char>, w: Wire)
    requires
        bound.takes_names(),
    ensures
        bound.with_named(name, w).is_named(),
        !bound.with_named(name, w).takes_positions(),
        bound.with_named(name, w).takes_names(),
        bound.with_named(name, w).wf(),
{
}

/// Binding at a position beyond the values extends them to it; what was
/// bound stays, and the positions between are `unset`.
pub proof fn lemma_with_ith(bound: Bound, index: int, w: Wire)
    requires
        0 <= index,
    ensures
        bound.with_ith(index, w).values[index] == w,
        bound.with_ith(index, w).values.len() == if index < bound.values.len() {
            bound.values.len()
        } else {
            (index + 1) as nat
        },
        forall|i: int|
            0 <= i < bound.values.len() && i != index ==> bound.with_ith(index, w).values[i]
                == bound.values[i],
        forall|i: int|
            bound.values.len() <= i < index ==> bound.with_ith(index, w).values[i] == Wire::Unset,
{
}

/// A record comes back: where its fields are written under names of which
/// none occurs twice, the user defined type holds the fields as they were
/// written, and a field that comes back from the wire is read as it was
/// written.
pub proof fn lemma_record_field_round_trip<R: RoundTrip<C>, C>(
    fields: Seq<(Seq<char>, Wire)>,
    i: int,
    x: R,
    policy: DefaultPolicy<R>,
)
    requires
        distinct_names(fields),
        0 <= i < fields.len(),
        fields[i].1 == <R as IntoValue<C>>::encoded(&x),
        x.comes_back(),
        !fields[i].1.is_absent(),
    ensures
        collected(fields) == fields,
        field_of(collected(fields), fields[i].0) == Some(fields[i].1),
        field_read::<R>(field_of(collected(fields), fields[i].0), policy, fields[i].0) == Ok::<
            R::Model,
            Failure,
        >(x.model()),
{
    lemma_collected_of_distinct(fields);
    assert forall|j: int| 0 <= j < i implies (#[trigger] fields[j]).0 != fields[i].0 by {
        assert(fields[j].0 != fields[i].0);
    }
    lemma_first_named_is(fields, fields[i].0, i);
    R::round_trip(x);
}

impl<T: TryFromValue> RejectsAbsent for Vec<T> {
    proof fn absent_is_incompatible(w: Wire) {
    }
}

impl<K: TryFromValue, V: TryFromValue> RejectsAbsent for Vec<KeyValue<K, V>> {
    proof fn absent_is_incompatible(w: Wire) {
    }
}

impl<K: TryFromValue + Eq + Hash, V: TryFromValue> RejectsAbsent for HashMap<K, V> {
    proof fn absent_is_incompatible(w: Wire) {
    }
}

impl<K: TryFromValue + Ord, V: TryFromValue> RejectsAbsent for BTreeMap<K, V> {
    proof fn absent_is_incompatible(w: Wire) {
    }
}

} // verus!
