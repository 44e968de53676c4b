//! Conversions from [`Value`] to Rust types.
//!
//! A value holds one of many variants, so a conversion to a Rust type fails
//! with a [`ConversionError`] where the variant is not one the type is made
//! from.
//!
//! | Variant      | Rust types
//! |--------------|--------------------------------------------------
//! | `Boolean`    | `bool`
//! | `Int`        | `i64`; `i32`, `i16`, `i8`, `u16` where the number fits
//! | `Float`      | `Float32`
//! | `Double`     | `Float64`
//! | `Date`       | `u32`
//! | `Time`       | `u64`
//! | `String`     | `String`
//! | `Bytes`      | `Vec<u8>`
//! | `Inet`       | `proto::Inet`
//! | `Uuid`       | `proto::Uuid`; `[u8; 16]` where there are 16 bytes
//! | `Decimal`    | `proto::Decimal`
//! | `Varint`     | `proto::Varint`
//! | `Udt`        | `proto::UdtValue`
//! | `Collection` | `Vec<T>`, `Vec<KeyValue<K, V>>`, `(T1, T2, ..., Tn)`
//! | `Collection` | `HashMap<K, V>`, `BTreeMap<K, V>`
//!
//! A `Value` converts to itself, and to `Option<T>`: `null`, `unset` and a value
//! without a variant become `None`. Every other type rejects these three as
//! incompatible; a value that is there but of another type is incompatible
//! too.
//!
//! No conversion loses precision: a `Double` does not convert to `Float32`.
use crate::error::{ConversionError, Failure};
use crate::proto::value::Inner;
use crate::proto::{Collection, Value};
use crate::wire::{lemma_collection_view, wires_of, Wire};
use vstd::prelude::*;

mod collections;
mod maps;
mod scalars;
mod std_conversions;
mod tuples;

pub use maps::{
    collect_btree_map, collect_hash_map, decoded_map, entries_of, lemma_made_of_pairs,
    made_of_pairs, try_into_btree_map, try_into_hash_map,
};
pub use collections::{
    decoded_pairs, decoded_seq, lemma_decoded_pairs_fails_early, lemma_decoded_seq_fails_early,
    items_made_from, lemma_decoded_seq_pointwise, models_of, pair_models_of, pairs_made_from,
};

verus! {

/// Converts a [`Value`] to a Rust type.
pub trait TryFromValue: Sized {
    /// The mathematical model of the Rust type.
    type Model;

    /// The model of a value of the Rust type. An implementation that is not
    /// verified need not say.
    open spec fn model(&self) -> Self::Model {
        arbitrary()
    }

    /// What converting a value yields: the model of the result, or why the
    /// conversion fails. An implementation that is not verified need not say.
    open spec fn decoded(w: Wire) -> Result<Self::Model, Failure> {
        arbitrary()
    }

    /// What holds of a result beyond its model, where the model does not say
    /// all: whether this is a result of converting `w`. A map, whose model is
    /// empty, says here what it holds; a type whose model says all says
    /// nothing more.
    open spec fn made_from(&self, w: Wire) -> bool {
        true
    }

    fn try_from(value: Value) -> (r: Result<Self, ConversionError>)
        ensures
            match r {
                Ok(x) => Self::decoded(value@) == Ok::<Self::Model, Failure>(x.model())
                    && x.made_from(value@),
                Err(e) => Self::decoded(value@) == Err::<Self::Model, Failure>(e.kind@),
            },
    ;
}

/// Whether `r` is what converting `w` to `T` yields: a result with the
/// model that `w` converts to, made from `w`; or the failure of `w`.
pub open spec fn converts<T: TryFromValue>(w: Wire, r: Result<T, ConversionError>) -> bool {
    match r {
        Ok(x) => T::decoded(w) == Ok::<T::Model, Failure>(x.model()) && x.made_from(w),
        Err(e) => T::decoded(w) == Err::<T::Model, Failure>(e.kind@),
    }
}

impl Value {
    /// Converts the value to a Rust type.
    pub fn try_into<T: TryFromValue>(self) -> (r: Result<T, ConversionError>)
        ensures
            match r {
                Ok(x) => T::decoded(self@) == Ok::<T::Model, Failure>(x.model()) && x.made_from(
                    self@,
                ),
                Err(e) => T::decoded(self@) == Err::<T::Model, Failure>(e.kind@),
            },
    {
        T::try_from(self)
    }

    /// Moves the value out and leaves one without a variant.
    pub fn take(&mut self) -> (taken: Value)
        ensures
            taken == *old(self),
            final(self).inner is None,
    {
        let mut taken = Value { inner: None };
        core::mem::swap(self, &mut taken);
        taken
    }
}

/// Moves the value at `at` out of `values` and leaves one without a variant.
pub fn take_at(values: &mut Vec<Value>, at: usize) -> (taken: Value)
    requires
        at < old(values)@.len(),
    ensures
        taken == old(values)@[at as int],
        final(values)@ == old(values)@.update(at as int, Value { inner: None }),
{
    let mut taken = Value { inner: None };
    core::mem::swap(&mut values[at], &mut taken);
    taken
}

/// What the items of a collection are; a value of another variant has none.
pub open spec fn items_of(w: Wire) -> Result<Seq<Wire>, Failure> {
    match w {
        Wire::Collection(ws) => Ok(ws),
        _ => Err(Failure::Incompatible),
    }
}

/// What the items of a collection of exactly `n` items are.
pub open spec fn exact_items_of(w: Wire, n: nat) -> Result<Seq<Wire>, Failure> {
    match w {
        Wire::Collection(ws) => if ws.len() == n {
            Ok(ws)
        } else {
            Err(Failure::WrongNumberOfItems { actual: ws.len(), expected: n })
        },
        _ => Err(Failure::Incompatible),
    }
}

/// The items of a collection, for a conversion to the type named `target`.
pub fn collection_items(value: Value, target: &str) -> (r: Result<Vec<Value>, ConversionError>)
    ensures
        match r {
            Ok(items) => items_of(value@) == Ok::<Seq<Wire>, Failure>(wires_of(items@)),
            Err(e) => items_of(value@) == Err::<Seq<Wire>, Failure>(e.kind@),
        },
{
    proof {
        if value.inner matches Some(Inner::Collection(_)) {
            lemma_collection_view(value);
        }
    }
    match value.inner {
        Some(Inner::Collection(c)) => Ok(c.elements),
        other => Err(ConversionError::incompatible(other, target)),
    }
}

/// The items of a collection that must have exactly `n` of them, for a
/// conversion to the type named `target`.
pub fn exact_items(value: Value, n: usize, target: &str) -> (r: Result<
    Vec<Value>,
    ConversionError,
>)
    ensures
        match r {
            Ok(items) => exact_items_of(value@, n as nat) == Ok::<Seq<Wire>, Failure>(
                wires_of(items@),
            ),
            Err(e) => exact_items_of(value@, n as nat) == Err::<Seq<Wire>, Failure>(e.kind@),
        },
{
    proof {
        if value.inner matches Some(Inner::Collection(_)) {
            lemma_collection_view(value);
        }
    }
    match value.inner {
        Some(Inner::Collection(c)) => {
            let len = c.elements.len();
            if len != n {
                Err(ConversionError::wrong_number_of_items(c, target, len, n))
            } else {
                Ok(c.elements)
            }
        },
        other => Err(ConversionError::incompatible(other, target)),
    }
}

} // verus!
