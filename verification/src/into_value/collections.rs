//! Conversions of options, vectors and maps, and the default conversion.
use super::{encoded_key_values, encoded_pairs, encoded_seq, DefaultGrpcType, IntoValue};
use crate::proto::Value;
use crate::types;
use crate::types::ConcreteType;
use crate::wire::{wires_of, Wire};
use crate::KeyValue;
use vstd::prelude::*;
use vstd::std_specs::convert::FromSpecImpl;

verus! {

/// `None` becomes `null`.
impl<R: IntoValue<C>, C: ConcreteType> IntoValue<C> for Option<R> {
    open spec fn encoded(&self) -> Wire {
        match self {
            None => Wire::Null,
            Some(x) => x.encoded(),
        }
    }

    fn into_value(self) -> (v: Value) {
        match self {
            None => Value::null(),
            Some(x) => x.into_value(),
        }
    }
}

impl<R: IntoValue<C>, C> IntoValue<types::List<C>> for Vec<R> {
    open spec fn encoded(&self) -> Wire {
        Wire::Collection(encoded_seq::<R, C>(self@))
    }

    fn into_value(self) -> (v: Value) {
        Value::raw_collection(super::convert_items::<R, C>(self))
    }
}

impl<R: IntoValue<C>, C> IntoValue<types::SetOf<C>> for Vec<R> {
    open spec fn encoded(&self) -> Wire {
        Wire::Collection(encoded_seq::<R, C>(self@))
    }

    fn into_value(self) -> (v: Value) {
        Value::raw_collection(super::convert_items::<R, C>(self))
    }
}

impl<RK: IntoValue<CK>, RV: IntoValue<CV>, CK, CV> IntoValue<types::MapOf<CK, CV>> for Vec<
    (RK, RV),
> {
    open spec fn encoded(&self) -> Wire {
        Wire::Collection(encoded_pairs::<RK, RV, CK, CV>(self@))
    }

    fn into_value(self) -> (v: Value) {
        Value::raw_collection(super::convert_pairs::<RK, RV, CK, CV>(self))
    }
}

impl<RK: IntoValue<CK>, RV: IntoValue<CV>, CK, CV> IntoValue<types::MapOf<CK, CV>> for Vec<
    KeyValue<RK, RV>,
> {
    open spec fn encoded(&self) -> Wire {
        Wire::Collection(encoded_key_values::<RK, RV, CK, CV>(self@))
    }

    fn into_value(self) -> (v: Value) {
        let ghost all = self@;
        let mut values: Vec<Value> = Vec::new();
        for pair in it: self.into_iter()
            invariant
                it.seq() == all,
                values@.len() == 2 * it.index(),
                forall|i: int|
                    0 <= i < values@.len() ==> (#[trigger] values@[i])@ == (if i % 2 == 0 {
                        all[i / 2].0.encoded()
                    } else {
                        all[i / 2].1.encoded()
                    }),
        {
            let (k, v) = pair.into_tuple();
            values.push(k.into_value());
            values.push(v.into_value());
        }
        assert(wires_of(values@) =~= encoded_key_values::<RK, RV, CK, CV>(all));
        Value::raw_collection(values)
    }
}

/// Under `Any`, a type is converted to its default.
impl<R> IntoValue<types::Any> for R where
    R: DefaultGrpcType + IntoValue<<R as DefaultGrpcType>::C>,
 {
    open spec fn encoded(&self) -> Wire {
        <R as IntoValue<<R as DefaultGrpcType>::C>>::encoded(self)
    }

    fn into_value(self) -> (v: Value) {
        <R as IntoValue<<R as DefaultGrpcType>::C>>::into_value(self)
    }
}

/// Under `Any`, a value passes through unchanged.
impl IntoValue<types::Any> for Value {
    open spec fn encoded(&self) -> Wire {
        self@
    }

    fn into_value(self) -> (v: Value) {
        self
    }
}

/// The conversion of a type to its default.
impl<R> From<R> for Value where R: DefaultGrpcType + IntoValue<<R as DefaultGrpcType>::C> {
    fn from(value: R) -> (v: Value)
        ensures
            v@ == <R as IntoValue<<R as DefaultGrpcType>::C>>::encoded(&value),
    {
        Value::convert::<R, <R as DefaultGrpcType>::C>(value)
    }
}

/// `from` is specified by its own `ensures`, over the view of the result.
impl<R> FromSpecImpl<R> for Value where R: DefaultGrpcType + IntoValue<<R as DefaultGrpcType>::C> {
    open spec fn obeys_from_spec() -> bool {
        false
    }

    open spec fn from_spec(value: R) -> Value {
        arbitrary()
    }
}

} // verus!
