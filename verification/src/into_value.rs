//! Conversions from Rust types to [`Value`].
//!
//! A Rust type may have several targets: a `u32` is an integer or a date, a
//! byte vector is a blob or a variable length integer. [`IntoValue`] therefore
//! takes the target as a parameter, one of the marker types of
//! [`types`](crate::types). [`DefaultGrpcType`] names the target that is meant
//! when none is given, as in `Value::from(x)`.
//!
//! | Rust type                  | targets
//! |----------------------------|-----------------------------------------------
//! | `bool`                     | `Boolean`
//! | `i8`                       | `Int`, `Bigint`, `Smallint`, `Tinyint`
//! | `i16`, `u8`                | `Int`, `Bigint`, `Smallint`
//! | `i32`, `u16`               | `Int`, `Bigint`
//! | `i64`                      | `Int`, `Bigint`, `Counter`, `Timestamp`
//! | `u32`                      | `Int`, `Bigint`, `Date`
//! | `u64`                      | `Time`
//! | `Float32`                  | `Float`
//! | `Float64`                  | `Double`
//! | `String`, `&str`           | `Text`, `Varchar`
//! | `Vec<u8>`                  | `Blob`, `Varint`
//! | `&[u8; 4]`                 | `Inet`
//! | `&[u8; 16]`                | `Inet`, `Uuid`
//! | `proto::Decimal`           | `Decimal`
//! | `proto::Inet`              | `Inet`
//! | `proto::UdtValue`          | `Udt`
//! | `proto::Uuid`              | `Uuid`
//! | `proto::Varint`            | `Varint`
//! | `Option<T>`                | the targets of `T`
//! | `Vec<T>`                   | `List`, `SetOf`
//! | `Vec<(K, V)>`              | `MapOf`
//! | `Vec<KeyValue<K, V>>`      | `MapOf`
//! | `(T1, T2, ...)`            | `(C1, C2, ...)`, `List<Any>`
//!
//! With the target [`Any`](crate::types::Any) every type goes to its default,
//! and a `Value` passes through unchanged.
//!
//! The maps of the standard library convert with
//! [`Value::from_hash_map`] and [`Value::from_btree_map`]. They are no
//! [`IntoValue`], which says what a value becomes from the value alone: a hash
//! map does not say in which order it hands out its entries.
use crate::proto::value::{Inner, Null, Unset};
use crate::proto::{Collection, Decimal, Inet, UdtValue, Uuid, Value, Varint};
use crate::types;
use crate::wire::{lemma_collection_view, lemma_udt_view, named_wires_of, wires_of, Wire};
use crate::{Float32, Float64, KeyValue};
use vstd::prelude::*;

mod collections;
mod defaults;
mod maps;
mod scalars;
mod tuples;

pub use maps::{keys_of, lists_entries};

/// The earlier name of [`DefaultGrpcType`].
pub use self::DefaultGrpcType as DefaultCassandraType;

verus! {

/// Selects the gRPC type that a Rust type is converted to when no target is
/// given: by `Value::from(x)`, by `x.into()`, and under
/// [`Any`](crate::types::Any).
pub trait DefaultGrpcType {
    /// One of the types of the [`types`](crate::types) module.
    type C;
}

/// Converts a value of a Rust type into a [`Value`] of the gRPC type `C`.
pub trait IntoValue<C>: Sized {
    /// What the conversion yields. An implementation that is not verified
    /// need not say.
    open spec fn encoded(&self) -> Wire {
        arbitrary()
    }

    fn into_value(self) -> (v: Value)
        ensures
            v@ == self.encoded(),
    ;
}

/// What a sequence of items yields, item by item.
pub open spec fn encoded_seq<R: IntoValue<C>, C>(items: Seq<R>) -> Seq<Wire> {
    Seq::new(items.len(), |i: int| items[i].encoded())
}

/// What a sequence of pairs yields as a map: key, value, key, value, ...
pub open spec fn encoded_pairs<RK: IntoValue<CK>, RV: IntoValue<CV>, CK, CV>(
    pairs: Seq<(RK, RV)>,
) -> Seq<Wire> {
    Seq::new(
        2 * pairs.len(),
        |i: int|
            if i % 2 == 0 {
                pairs[i / 2].0.encoded()
            } else {
                pairs[i / 2].1.encoded()
            },
    )
}

/// What a sequence of key-value pairs yields as a map: key, value, key, value, ...
pub open spec fn encoded_key_values<RK: IntoValue<CK>, RV: IntoValue<CV>, CK, CV>(
    pairs: Seq<KeyValue<RK, RV>>,
) -> Seq<Wire> {
    Seq::new(
        2 * pairs.len(),
        |i: int|
            if i % 2 == 0 {
                pairs[i / 2].0.encoded()
            } else {
                pairs[i / 2].1.encoded()
            },
    )
}

/// Converts the items in order.
pub fn convert_items<R: IntoValue<C>, C>(items: Vec<R>) -> (values: Vec<Value>)
    ensures
        wires_of(values@) == encoded_seq::<R, C>(items@),
{
    let ghost all = items@;
    let mut values: Vec<Value> = Vec::new();
    for item in it: items.into_iter()
        invariant
            it.seq() == all,
            values@.len() == it.index(),
            forall|j: int| 0 <= j < values@.len() ==> (#[trigger] values@[j])@ == all[j].encoded(),
    {
        values.push(item.into_value());
    }
    assert(wires_of(values@) =~= encoded_seq::<R, C>(all));
    values
}

/// Converts the pairs in order, each to its key and then its value.
pub fn convert_pairs<RK: IntoValue<CK>, RV: IntoValue<CV>, CK, CV>(pairs: Vec<(RK, RV)>) -> (values:
    Vec<Value>)
    ensures
        wires_of(values@) == encoded_pairs::<RK, RV, CK, CV>(pairs@),
{
    let ghost all = pairs@;
    let mut values: Vec<Value> = Vec::new();
    for pair in it: pairs.into_iter()
        invariant
            it.seq() == all,
            values@.len() == 2 * it.index(),
            forall|i: int|
                0 <= i < values@.len() ==> (#[trigger] values@[i])@ == (if i % 2 == 0 {
                    all[i / 2].0.encoded()
                } else {
                    all[i / 2].1.encoded()
                }),
    {
        let (k, v) = pair;
        values.push(k.into_value());
        values.push(v.into_value());
    }
    assert(wires_of(values@) =~= encoded_pairs::<RK, RV, CK, CV>(all));
    values
}

impl Value {
    /// Constructs a CQL boolean value without applying additional conversions.
    /// CQL type: `boolean`.
    pub fn raw_boolean(value: bool) -> (v: Value)
        ensures
            v@ == Wire::Boolean(value),
    {
        Value { inner: Some(Inner::Boolean(value)) }
    }

    /// Constructs an integer value without applying additional conversions.
    /// CQL types: `tinyint`, `smallint`, `int`, `bigint`, `counter`, `timestamp`.
    pub fn raw_int(value: i64) -> (v: Value)
        ensures
            v@ == Wire::Int(value),
    {
        Value { inner: Some(Inner::Int(value)) }
    }

    /// Constructs a float value without applying conversions.
    /// CQL types: `float`.
    pub fn raw_float(value: Float32) -> (v: Value)
        ensures
            v@ == Wire::Float(value.0),
    {
        Value { inner: Some(Inner::Float(value)) }
    }

    /// Constructs a double value without applying additional conversions.
    /// CQL types: `double`.
    pub fn raw_double(value: Float64) -> (v: Value)
        ensures
            v@ == Wire::Double(value.0),
    {
        Value { inner: Some(Inner::Double(value)) }
    }

    /// Constructs a date value from a number of days.
    /// CQL types: `date`.
    pub fn raw_date(value: u32) -> (v: Value)
        ensures
            v@ == Wire::Date(value),
    {
        Value { inner: Some(Inner::Date(value)) }
    }

    /// Constructs a time value from the number of nanoseconds since midnight.
    /// CQL types: `time`.
    pub fn raw_time(value: u64) -> (v: Value)
        ensures
            v@ == Wire::Time(value),
    {
        Value { inner: Some(Inner::Time(value)) }
    }

    /// Constructs a UUID value from raw bytes.
    /// CQL types: `uuid`, `timeuuid`.
    pub fn raw_uuid(value: &[u8; 16]) -> (v: Value)
        ensures
            v@ == Wire::Uuid(value@),
    {
        Value { inner: Some(Inner::Uuid(Uuid { value: bytes_of(value) })) }
    }

    /// Constructs an internet address value from raw bytes.
    /// CQL types: `inet`.
    pub fn raw_inet(value: Vec<u8>) -> (v: Value)
        ensures
            v@ == Wire::Inet(value@),
    {
        Value { inner: Some(Inner::Inet(Inet { value })) }
    }

    /// Constructs a binary blob value by wrapping bytes.
    /// CQL types: `blob`, `custom`.
    pub fn raw_bytes(value: Vec<u8>) -> (v: Value)
        ensures
            v@ == Wire::Bytes(value@),
    {
        Value { inner: Some(Inner::Bytes(value)) }
    }

    /// Constructs a variable length integer from its raw byte representation.
    /// CQL types: `varint`.
    pub fn raw_varint(value: Vec<u8>) -> (v: Value)
        ensures
            v@ == Wire::Varint(value@),
    {
        Value { inner: Some(Inner::Varint(Varint { value })) }
    }

    /// Constructs a decimal value from raw mantissa and scale.
    /// CQL types: `decimal`.
    pub fn raw_decimal(scale: u32, value: Vec<u8>) -> (v: Value)
        ensures
            v@ == (Wire::Decimal { scale, unscaled: value@ }),
    {
        Value { inner: Some(Inner::Decimal(Decimal { scale, value })) }
    }

    /// Constructs a string value.
    /// CQL types: `ascii`, `varchar`, `text`.
    pub fn raw_string(value: String) -> (v: Value)
        ensures
            v@ == Wire::String(value@),
    {
        Value { inner: Some(Inner::String(value)) }
    }

    /// Constructs a collection of values.
    /// CQL types: `list`, `set`, `map`, `tuple`.
    pub fn raw_collection(elements: Vec<Value>) -> (v: Value)
        ensures
            v@ == Wire::Collection(wires_of(elements@)),
    {
        let v = Value { inner: Some(Inner::Collection(Collection { elements })) };
        proof {
            lemma_collection_view(v);
        }
        v
    }

    /// Constructs a user defined type value from field values.
    /// CQL types: user defined types.
    pub fn raw_udt(fields: Vec<(String, Value)>) -> (v: Value)
        ensures
            v@ == Wire::Udt(named_wires_of(fields@)),
    {
        let v = Value { inner: Some(Inner::Udt(UdtValue { fields })) };
        proof {
            lemma_udt_view(v);
        }
        v
    }

    /// Converts a value of a different type into a `Value`.
    ///
    /// Same as [`Value::of_type`] but without the type argument.
    pub fn convert<R: IntoValue<C>, C>(value: R) -> (v: Value)
        ensures
            v@ == value.encoded(),
    {
        value.into_value()
    }

    /// Converts a Rust value to a `Value` of the gRPC type that `_type_spec`
    /// names, one of the types of the [`types`](crate::types) module.
    ///
    /// Some Rust types have more than one target: a `u32` is an `Int` or a
    /// `Date`. A `u64` has no default, so that a time is not taken for an
    /// integer by accident; it is converted only here.
    /// [`Any`](crate::types::Any) stands for the default of the source type.
    pub fn of_type<R: IntoValue<C>, C>(_type_spec: C, value: R) -> (v: Value)
        ensures
            v@ == value.encoded(),
    {
        value.into_value()
    }

    /// Creates a CQL `null` value.
    pub fn null() -> (v: Value)
        ensures
            v@ == Wire::Null,
    {
        Value { inner: Some(Inner::Null(Null {  })) }
    }

    /// Unset value. The server ignores unset parameters: bind one where a
    /// statement has a parameter whose stored value is to stay as it is.
    pub fn unset() -> (v: Value)
        ensures
            v@ == Wire::Unset,
    {
        Value { inner: Some(Inner::Unset(Unset {  })) }
    }

    /// Constructs a CQL `boolean` value.
    pub fn boolean<R: IntoValue<types::Boolean>>(value: R) -> (v: Value)
        ensures
            v@ == value.encoded(),
    {
        value.into_value()
    }

    /// Constructs a CQL `tinyint`, `smallint`, `int`, `bigint`, `counter` or
    /// `timestamp` value.
    pub fn bigint<R: IntoValue<types::Bigint>>(value: R) -> (v: Value)
        ensures
            v@ == value.encoded(),
    {
        value.into_value()
    }

    /// Constructs a CQL `float` value.
    pub fn float<R: IntoValue<types::Float>>(value: R) -> (v: Value)
        ensures
            v@ == value.encoded(),
    {
        value.into_value()
    }

    /// Constructs a CQL `double` value.
    pub fn double<R: IntoValue<types::Double>>(value: R) -> (v: Value)
        ensures
            v@ == value.encoded(),
    {
        value.into_value()
    }

    /// Constructs a CQL `date` value.
    pub fn date<R: IntoValue<types::Date>>(value: R) -> (v: Value)
        ensures
            v@ == value.encoded(),
    {
        value.into_value()
    }

    /// Constructs a CQL `time` value.
    pub fn time<R: IntoValue<types::Time>>(value: R) -> (v: Value)
        ensures
            v@ == value.encoded(),
    {
        value.into_value()
    }

    /// Constructs a CQL `uuid` or `timeuuid` value.
    pub fn uuid<R: IntoValue<types::Uuid>>(value: R) -> (v: Value)
        ensures
            v@ == value.encoded(),
    {
        value.into_value()
    }

    /// Constructs a CQL `inet` value.
    pub fn inet<R: IntoValue<types::Inet>>(value: R) -> (v: Value)
        ensures
            v@ == value.encoded(),
    {
        value.into_value()
    }

    /// Constructs a CQL `blob` or `custom` value.
    pub fn bytes<R: IntoValue<types::Blob>>(value: R) -> (v: Value)
        ensures
            v@ == value.encoded(),
    {
        value.into_value()
    }

    /// Constructs a CQL `varint` value.
    pub fn varint<R: IntoValue<types::Varint>>(value: R) -> (v: Value)
        ensures
            v@ == value.encoded(),
    {
        value.into_value()
    }

    /// Constructs a CQL `decimal` value.
    pub fn decimal<R: IntoValue<types::Decimal>>(value: R) -> (v: Value)
        ensures
            v@ == value.encoded(),
    {
        value.into_value()
    }

    /// Constructs a CQL `ascii`, `varchar` or `text` value.
    pub fn string<R: IntoValue<types::Text>>(value: R) -> (v: Value)
        ensures
            v@ == value.encoded(),
    {
        value.into_value()
    }

    /// Constructs a CQL `list`, `set` or `tuple` value. Each item goes to the
    /// default of its type.
    ///
    /// See also [`Value::list_of`].
    pub fn list<T: IntoValue<types::Any>>(elements: Vec<T>) -> (v: Value)
        ensures
            v@ == Wire::Collection(encoded_seq::<T, types::Any>(elements@)),
    {
        Value::list_of(types::Any, elements)
    }

    /// Constructs a CQL `list`, `set` or `tuple` value whose items have the
    /// type that `_element_type` names.
    pub fn list_of<E, T: IntoValue<E>>(_element_type: E, elements: Vec<T>) -> (v: Value)
        ensures
            v@ == Wire::Collection(encoded_seq::<T, E>(elements@)),
    {
        Value::raw_collection(convert_items::<T, E>(elements))
    }

    /// Converts key-value pairs to a CQL `map` value: a collection of twice
    /// as many items, key, value, key, value, ... Keys and values go to the
    /// defaults of their types.
    ///
    /// See also [`Value::map_of`].
    pub fn map<K: IntoValue<types::Any>, V: IntoValue<types::Any>>(
        key_value_pairs: Vec<(K, V)>,
    ) -> (v: Value)
        ensures
            v@ == Wire::Collection(
                encoded_pairs::<K, V, types::Any, types::Any>(key_value_pairs@),
            ),
    {
        Value::map_of(types::Any, types::Any, key_value_pairs)
    }

    /// Converts key-value pairs to a CQL `map` value whose keys and values
    /// have the types that `_key_type` and `_value_type` name.
    pub fn map_of<CK, CV, RK: IntoValue<CK>, RV: IntoValue<CV>>(
        _key_type: CK,
        _value_type: CV,
        elements: Vec<(RK, RV)>,
    ) -> (v: Value)
        ensures
            v@ == Wire::Collection(encoded_pairs::<RK, RV, CK, CV>(elements@)),
    {
        Value::raw_collection(convert_pairs::<RK, RV, CK, CV>(elements))
    }
}

/// The bytes of an array, as a vector.
pub fn bytes_of<const N: usize>(array: &[u8; N]) -> (bytes: Vec<u8>)
    ensures
        bytes@ == array@,
{
    let mut bytes: Vec<u8> = Vec::new();
    let mut i: usize = 0;
    while i < N
        invariant
            i <= N,
            array@.len() == N,
            bytes@ == array@.take(i as int),
        decreases N - i,
    {
        bytes.push(array[i]);
        assert(array@.take(i as int + 1) == array@.take(i as int).push(array@[i as int]));
        i += 1;
    }
    assert(array@.take(N as int) == array@);
    bytes
}

} // verus!
