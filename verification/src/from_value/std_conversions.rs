//! `TryFrom<Value>` for the types that convert from a value, so that a
//! value can be handed to code that asks for `TryInto`.
//!
//! Each `try_from` here is the `try_from` of [`TryFromValue`](super::TryFromValue)
//! for its type, and is specified by its own `ensures`, over the models of the
//! value and of the result.
use crate::error::{ConversionError, Failure};
use crate::proto::{Decimal, Inet, UdtValue, Uuid, Value, Varint};
use crate::{Float32, Float64, KeyValue};
use std::collections::{BTreeMap, HashMap};
use std::hash::Hash;
use vstd::prelude::*;
use vstd::std_specs::convert::TryFromSpecImpl;

verus! {

impl TryFrom<Value> for bool {
    type Error = ConversionError;

    fn try_from(value: Value) -> (r: Result<Self, ConversionError>)
        ensures
            match r {
                Ok(x) => <Self as super::TryFromValue>::decoded(value@) == Ok::<
                    <Self as super::TryFromValue>::Model,
                    Failure,
                >(<Self as super::TryFromValue>::model(&x))
                    && <Self as super::TryFromValue>::made_from(&x, value@),
                Err(e) => <Self as super::TryFromValue>::decoded(value@) == Err::<
                    <Self as super::TryFromValue>::Model,
                    Failure,
                >(e.kind@),
            },
    {
        <Self as super::TryFromValue>::try_from(value)
    }
}

impl TryFromSpecImpl<Value> for bool {
    open spec fn obeys_try_from_spec() -> bool {
        false
    }

    open spec fn try_from_spec(value: Value) -> Result<Self, ConversionError> {
        arbitrary()
    }
}

impl TryFrom<Value> for Option<bool> {
    type Error = ConversionError;

    fn try_from(value: Value) -> (r: Result<Self, ConversionError>)
        ensures
            match r {
                Ok(x) => <Self as super::TryFromValue>::decoded(value@) == Ok::<
                    <Self as super::TryFromValue>::Model,
                    Failure,
                >(<Self as super::TryFromValue>::model(&x))
                    && <Self as super::TryFromValue>::made_from(&x, value@),
                Err(e) => <Self as super::TryFromValue>::decoded(value@) == Err::<
                    <Self as super::TryFromValue>::Model,
                    Failure,
                >(e.kind@),
            },
    {
        <Self as super::TryFromValue>::try_from(value)
    }
}

impl TryFromSpecImpl<Value> for Option<bool> {
    open spec fn obeys_try_from_spec() -> bool {
        false
    }

    open spec fn try_from_spec(value: Value) -> Result<Self, ConversionError> {
        arbitrary()
    }
}

impl TryFrom<Value> for i64 {
    type Error = ConversionError;

    fn try_from(value: Value) -> (r: Result<Self, ConversionError>)
        ensures
            match r {
                Ok(x) => <Self as super::TryFromValue>::decoded(value@) == Ok::<
                    <Self as super::TryFromValue>::Model,
                    Failure,
                >(<Self as super::TryFromValue>::model(&x))
                    && <Self as super::TryFromValue>::made_from(&x, value@),
                Err(e) => <Self as super::TryFromValue>::decoded(value@) == Err::<
                    <Self as super::TryFromValue>::Model,
                    Failure,
                >(e.kind@),
            },
    {
        <Self as super::TryFromValue>::try_from(value)
    }
}

impl TryFromSpecImpl<Value> for i64 {
    open spec fn obeys_try_from_spec() -> bool {
        false
    }

    open spec fn try_from_spec(value: Value) -> Result<Self, ConversionError> {
        arbitrary()
    }
}

impl TryFrom<Value> for Option<i64> {
    type Error = ConversionError;

    fn try_from(value: Value) -> (r: Result<Self, ConversionError>)
        ensures
            match r {
                Ok(x) => <Self as super::TryFromValue>::decoded(value@) == Ok::<
                    <Self as super::TryFromValue>::Model,
                    Failure,
                >(<Self as super::TryFromValue>::model(&x))
                    && <Self as super::TryFromValue>::made_from(&x, value@),
                Err(e) => <Self as super::TryFromValue>::decoded(value@) == Err::<
                    <Self as super::TryFromValue>::Model,
                    Failure,
                >(e.kind@),
            },
    {
        <Self as super::TryFromValue>::try_from(value)
    }
}

impl TryFromSpecImpl<Value> for Option<i64> {
    open spec fn obeys_try_from_spec() -> bool {
        false
    }

    open spec fn try_from_spec(value: Value) -> Result<Self, ConversionError> {
        arbitrary()
    }
}

impl TryFrom<Value> for i32 {
    type Error = ConversionError;

    fn try_from(value: Value) -> (r: Result<Self, ConversionError>)
        ensures
            match r {
                Ok(x) => <Self as super::TryFromValue>::decoded(value@) == Ok::<
                    <Self as super::TryFromValue>::Model,
                    Failure,
                >(<Self as super::TryFromValue>::model(&x))
                    && <Self as super::TryFromValue>::made_from(&x, value@),
                Err(e) => <Self as super::TryFromValue>::decoded(value@) == Err::<
                    <Self as super::TryFromValue>::Model,
                    Failure,
                >(e.kind@),
            },
    {
        <Self as super::TryFromValue>::try_from(value)
    }
}

impl TryFromSpecImpl<Value> for i32 {
    open spec fn obeys_try_from_spec() -> bool {
        false
    }

    open spec fn try_from_spec(value: Value) -> Result<Self, ConversionError> {
        arbitrary()
    }
}

impl TryFrom<Value> for Option<i32> {
    type Error = ConversionError;

    fn try_from(value: Value) -> (r: Result<Self, ConversionError>)
        ensures
            match r {
                Ok(x) => <Self as super::TryFromValue>::decoded(value@) == Ok::<
                    <Self as super::TryFromValue>::Model,
                    Failure,
                >(<Self as super::TryFromValue>::model(&x))
                    && <Self as super::TryFromValue>::made_from(&x, value@),
                Err(e) => <Self as super::TryFromValue>::decoded(value@) == Err::<
                    <Self as super::TryFromValue>::Model,
                    Failure,
                >(e.kind@),
            },
    {
        <Self as super::TryFromValue>::try_from(value)
    }
}

impl TryFromSpecImpl<Value> for Option<i32> {
    open spec fn obeys_try_from_spec() -> bool {
        false
    }

    open spec fn try_from_spec(value: Value) -> Result<Self, ConversionError> {
        arbitrary()
    }
}

impl TryFrom<Value> for i16 {
    type Error = ConversionError;

    fn try_from(value: Value) -> (r: Result<Self, ConversionError>)
        ensures
            match r {
                Ok(x) => <Self as super::TryFromValue>::decoded(value@) == Ok::<
                    <Self as super::TryFromValue>::Model,
                    Failure,
                >(<Self as super::TryFromValue>::model(&x))
                    && <Self as super::TryFromValue>::made_from(&x, value@),
                Err(e) => <Self as super::TryFromValue>::decoded(value@) == Err::<
                    <Self as super::TryFromValue>::Model,
                    Failure,
                >(e.kind@),
            },
    {
        <Self as super::TryFromValue>::try_from(value)
    }
}

impl TryFromSpecImpl<Value> for i16 {
    open spec fn obeys_try_from_spec() -> bool {
        false
    }

    open spec fn try_from_spec(value: Value) -> Result<Self, ConversionError> {
        arbitrary()
    }
}

impl TryFrom<Value> for Option<i16> {
    type Error = ConversionError;

    fn try_from(value: Value) -> (r: Result<Self, ConversionError>)
        ensures
            match r {
                Ok(x) => <Self as super::TryFromValue>::decoded(value@) == Ok::<
                    <Self as super::TryFromValue>::Model,
                    Failure,
                >(<Self as super::TryFromValue>::model(&x))
                    && <Self as super::TryFromValue>::made_from(&x, value@),
                Err(e) => <Self as super::TryFromValue>::decoded(value@) == Err::<
                    <Self as super::TryFromValue>::Model,
                    Failure,
                >(e.kind@),
            },
    {
        <Self as super::TryFromValue>::try_from(value)
    }
}

impl TryFromSpecImpl<Value> for Option<i16> {
    open spec fn obeys_try_from_spec() -> bool {
        false
    }

    open spec fn try_from_spec(value: Value) -> Result<Self, ConversionError> {
        arbitrary()
    }
}

impl TryFrom<Value> for i8 {
    type Error = ConversionError;

    fn try_from(value: Value) -> (r: Result<Self, ConversionError>)
        ensures
            match r {
                Ok(x) => <Self as super::TryFromValue>::decoded(value@) == Ok::<
                    <Self as super::TryFromValue>::Model,
                    Failure,
                >(<Self as super::TryFromValue>::model(&x))
                    && <Self as super::TryFromValue>::made_from(&x, value@),
                Err(e) => <Self as super::TryFromValue>::decoded(value@) == Err::<
                    <Self as super::TryFromValue>::Model,
                    Failure,
                >(e.kind@),
            },
    {
        <Self as super::TryFromValue>::try_from(value)
    }
}

impl TryFromSpecImpl<Value> for i8 {
    open spec fn obeys_try_from_spec() -> bool {
        false
    }

    open spec fn try_from_spec(value: Value) -> Result<Self, ConversionError> {
        arbitrary()
    }
}

impl TryFrom<Value> for Option<i8> {
    type Error = ConversionError;

    fn try_from(value: Value) -> (r: Result<Self, ConversionError>)
        ensures
            match r {
                Ok(x) => <Self as super::TryFromValue>::decoded(value@) == Ok::<
                    <Self as super::TryFromValue>::Model,
                    Failure,
                >(<Self as super::TryFromValue>::model(&x))
                    && <Self as super::TryFromValue>::made_from(&x, value@),
                Err(e) => <Self as super::TryFromValue>::decoded(value@) == Err::<
                    <Self as super::TryFromValue>::Model,
                    Failure,
                >(e.kind@),
            },
    {
        <Self as super::TryFromValue>::try_from(value)
    }
}

impl TryFromSpecImpl<Value> for Option<i8> {
    open spec fn obeys_try_from_spec() -> bool {
        false
    }

    open spec fn try_from_spec(value: Value) -> Result<Self, ConversionError> {
        arbitrary()
    }
}

impl TryFrom<Value> for u16 {
    type Error = ConversionError;

    fn try_from(value: Value) -> (r: Result<Self, ConversionError>)
        ensures
            match r {
                Ok(x) => <Self as super::TryFromValue>::decoded(value@) == Ok::<
                    <Self as super::TryFromValue>::Model,
                    Failure,
                >(<Self as super::TryFromValue>::model(&x))
                    && <Self as super::TryFromValue>::made_from(&x, value@),
                Err(e) => <Self as super::TryFromValue>::decoded(value@) == Err::<
                    <Self as super::TryFromValue>::Model,
                    Failure,
                >(e.kind@),
            },
    {
        <Self as super::TryFromValue>::try_from(value)
    }
}

impl TryFromSpecImpl<Value> for u16 {
    open spec fn obeys_try_from_spec() -> bool {
        false
    }

    open spec fn try_from_spec(value: Value) -> Result<Self, ConversionError> {
        arbitrary()
    }
}

impl TryFrom<Value> for Option<u16> {
    type Error = ConversionError;

    fn try_from(value: Value) -> (r: Result<Self, ConversionError>)
        ensures
            match r {
                Ok(x) => <Self as super::TryFromValue>::decoded(value@) == Ok::<
                    <Self as super::TryFromValue>::Model,
                    Failure,
                >(<Self as super::TryFromValue>::model(&x))
                    && <Self as super::TryFromValue>::made_from(&x, value@),
                Err(e) => <Self as super::TryFromValue>::decoded(value@) == Err::<
                    <Self as super::TryFromValue>::Model,
                    Failure,
                >(e.kind@),
            },
    {
        <Self as super::TryFromValue>::try_from(value)
    }
}

impl TryFromSpecImpl<Value> for Option<u16> {
    open spec fn obeys_try_from_spec() -> bool {
        false
    }

    open spec fn try_from_spec(value: Value) -> Result<Self, ConversionError> {
        arbitrary()
    }
}

impl TryFrom<Value> for u32 {
    type Error = ConversionError;

    fn try_from(value: Value) -> (r: Result<Self, ConversionError>)
        ensures
            match r {
                Ok(x) => <Self as super::TryFromValue>::decoded(value@) == Ok::<
                    <Self as super::TryFromValue>::Model,
                    Failure,
                >(<Self as super::TryFromValue>::model(&x))
                    && <Self as super::TryFromValue>::made_from(&x, value@),
                Err(e) => <Self as super::TryFromValue>::decoded(value@) == Err::<
                    <Self as super::TryFromValue>::Model,
                    Failure,
                >(e.kind@),
            },
    {
        <Self as super::TryFromValue>::try_from(value)
    }
}

impl TryFromSpecImpl<Value> for u32 {
    open spec fn obeys_try_from_spec() -> bool {
        false
    }

    open spec fn try_from_spec(value: Value) -> Result<Self, ConversionError> {
        arbitrary()
    }
}

impl TryFrom<Value> for Option<u32> {
    type Error = ConversionError;

    fn try_from(value: Value) -> (r: Result<Self, ConversionError>)
        ensures
            match r {
                Ok(x) => <Self as super::TryFromValue>::decoded(value@) == Ok::<
                    <Self as super::TryFromValue>::Model,
                    Failure,
                >(<Self as super::TryFromValue>::model(&x))
                    && <Self as super::TryFromValue>::made_from(&x, value@),
                Err(e) => <Self as super::TryFromValue>::decoded(value@) == Err::<
                    <Self as super::TryFromValue>::Model,
                    Failure,
                >(e.kind@),
            },
    {
        <Self as super::TryFromValue>::try_from(value)
    }
}

impl TryFromSpecImpl<Value> for Option<u32> {
    open spec fn obeys_try_from_spec() -> bool {
        false
    }

    open spec fn try_from_spec(value: Value) -> Result<Self, ConversionError> {
        arbitrary()
    }
}

impl TryFrom<Value> for u64 {
    type Error = ConversionError;

    fn try_from(value: Value) -> (r: Result<Self, ConversionError>)
        ensures
            match r {
                Ok(x) => <Self as super::TryFromValue>::decoded(value@) == Ok::<
                    <Self as super::TryFromValue>::Model,
                    Failure,
                >(<Self as super::TryFromValue>::model(&x))
                    && <Self as super::TryFromValue>::made_from(&x, value@),
                Err(e) => <Self as super::TryFromValue>::decoded(value@) == Err::<
                    <Self as super::TryFromValue>::Model,
                    Failure,
                >(e.kind@),
            },
    {
        <Self as super::TryFromValue>::try_from(value)
    }
}

impl TryFromSpecImpl<Value> for u64 {
    open spec fn obeys_try_from_spec() -> bool {
        false
    }

    open spec fn try_from_spec(value: Value) -> Result<Self, ConversionError> {
        arbitrary()
    }
}

impl TryFrom<Value> for Option<u64> {
    type Error = ConversionError;

    fn try_from(value: Value) -> (r: Result<Self, ConversionError>)
        ensures
            match r {
                Ok(x) => <Self as super::TryFromValue>::decoded(value@) == Ok::<
                    <Self as super::TryFromValue>::Model,
                    Failure,
                >(<Self as super::TryFromValue>::model(&x))
                    && <Self as super::TryFromValue>::made_from(&x, value@),
                Err(e) => <Self as super::TryFromValue>::decoded(value@) == Err::<
                    <Self as super::TryFromValue>::Model,
                    Failure,
                >(e.kind@),
            },
    {
        <Self as super::TryFromValue>::try_from(value)
    }
}

impl TryFromSpecImpl<Value> for Option<u64> {
    open spec fn obeys_try_from_spec() -> bool {
        false
    }

    open spec fn try_from_spec(value: Value) -> Result<Self, ConversionError> {
        arbitrary()
    }
}

impl TryFrom<Value> for Float32 {
    type Error = ConversionError;

    fn try_from(value: Value) -> (r: Result<Self, ConversionError>)
        ensures
            match r {
                Ok(x) => <Self as super::TryFromValue>::decoded(value@) == Ok::<
                    <Self as super::TryFromValue>::Model,
                    Failure,
                >(<Self as super::TryFromValue>::model(&x))
                    && <Self as super::TryFromValue>::made_from(&x, value@),
                Err(e) => <Self as super::TryFromValue>::decoded(value@) == Err::<
                    <Self as super::TryFromValue>::Model,
                    Failure,
                >(e.kind@),
            },
    {
        <Self as super::TryFromValue>::try_from(value)
    }
}

impl TryFromSpecImpl<Value> for Float32 {
    open spec fn obeys_try_from_spec() -> bool {
        false
    }

    open spec fn try_from_spec(value: Value) -> Result<Self, ConversionError> {
        arbitrary()
    }
}

impl TryFrom<Value> for Option<Float32> {
    type Error = ConversionError;

    fn try_from(value: Value) -> (r: Result<Self, ConversionError>)
        ensures
            match r {
                Ok(x) => <Self as super::TryFromValue>::decoded(value@) == Ok::<
                    <Self as super::TryFromValue>::Model,
                    Failure,
                >(<Self as super::TryFromValue>::model(&x))
                    && <Self as super::TryFromValue>::made_from(&x, value@),
                Err(e) => <Self as super::TryFromValue>::decoded(value@) == Err::<
                    <Self as super::TryFromValue>::Model,
                    Failure,
                >(e.kind@),
            },
    {
        <Self as super::TryFromValue>::try_from(value)
    }
}

impl TryFromSpecImpl<Value> for Option<Float32> {
    open spec fn obeys_try_from_spec() -> bool {
        false
    }

    open spec fn try_from_spec(value: Value) -> Result<Self, ConversionError> {
        arbitrary()
    }
}

impl TryFrom<Value> for Float64 {
    type Error = ConversionError;

    fn try_from(value: Value) -> (r: Result<Self, ConversionError>)
        ensures
            match r {
                Ok(x) => <Self as super::TryFromValue>::decoded(value@) == Ok::<
                    <Self as super::TryFromValue>::Model,
                    Failure,
                >(<Self as super::TryFromValue>::model(&x))
                    && <Self as super::TryFromValue>::made_from(&x, value@),
                Err(e) => <Self as super::TryFromValue>::decoded(value@) == Err::<
                    <Self as super::TryFromValue>::Model,
                    Failure,
                >(e.kind@),
            },
    {
        <Self as super::TryFromValue>::try_from(value)
    }
}

impl TryFromSpecImpl<Value> for Float64 {
    open spec fn obeys_try_from_spec() -> bool {
        false
    }

    open spec fn try_from_spec(value: Value) -> Result<Self, ConversionError> {
        arbitrary()
    }
}

impl TryFrom<Value> for Option<Float64> {
    type Error = ConversionError;

    fn try_from(value: Value) -> (r: Result<Self, ConversionError>)
        ensures
            match r {
                Ok(x) => <Self as super::TryFromValue>::decoded(value@) == Ok::<
                    <Self as super::TryFromValue>::Model,
                    Failure,
                >(<Self as super::TryFromValue>::model(&x))
                    && <Self as super::TryFromValue>::made_from(&x, value@),
                Err(e) => <Self as super::TryFromValue>::decoded(value@) == Err::<
                    <Self as super::TryFromValue>::Model,
                    Failure,
                >(e.kind@),
            },
    {
        <Self as super::TryFromValue>::try_from(value)
    }
}

impl TryFromSpecImpl<Value> for Option<Float64> {
    open spec fn obeys_try_from_spec() -> bool {
        false
    }

    open spec fn try_from_spec(value: Value) -> Result<Self, ConversionError> {
        arbitrary()
    }
}

impl TryFrom<Value> for String {
    type Error = ConversionError;

    fn try_from(value: Value) -> (r: Result<Self, ConversionError>)
        ensures
            match r {
                Ok(x) => <Self as super::TryFromValue>::decoded(value@) == Ok::<
                    <Self as super::TryFromValue>::Model,
                    Failure,
                >(<Self as super::TryFromValue>::model(&x))
                    && <Self as super::TryFromValue>::made_from(&x, value@),
                Err(e) => <Self as super::TryFromValue>::decoded(value@) == Err::<
                    <Self as super::TryFromValue>::Model,
                    Failure,
                >(e.kind@),
            },
    {
        <Self as super::TryFromValue>::try_from(value)
    }
}

impl TryFromSpecImpl<Value> for String {
    open spec fn obeys_try_from_spec() -> bool {
        false
    }

    open spec fn try_from_spec(value: Value) -> Result<Self, ConversionError> {
        arbitrary()
    }
}

impl TryFrom<Value> for Option<String> {
    type Error = ConversionError;

    fn try_from(value: Value) -> (r: Result<Self, ConversionError>)
        ensures
            match r {
                Ok(x) => <Self as super::TryFromValue>::decoded(value@) == Ok::<
                    <Self as super::TryFromValue>::Model,
                    Failure,
                >(<Self as super::TryFromValue>::model(&x))
                    && <Self as super::TryFromValue>::made_from(&x, value@),
                Err(e) => <Self as super::TryFromValue>::decoded(value@) == Err::<
                    <Self as super::TryFromValue>::Model,
                    Failure,
                >(e.kind@),
            },
    {
        <Self as super::TryFromValue>::try_from(value)
    }
}

impl TryFromSpecImpl<Value> for Option<String> {
    open spec fn obeys_try_from_spec() -> bool {
        false
    }

    open spec fn try_from_spec(value: Value) -> Result<Self, ConversionError> {
        arbitrary()
    }
}

impl TryFrom<Value> for Vec<u8> {
    type Error = ConversionError;

    fn try_from(value: Value) -> (r: Result<Self, ConversionError>)
        ensures
            match r {
                Ok(x) => <Self as super::TryFromValue>::decoded(value@) == Ok::<
                    <Self as super::TryFromValue>::Model,
                    Failure,
                >(<Self as super::TryFromValue>::model(&x))
                    && <Self as super::TryFromValue>::made_from(&x, value@),
                Err(e) => <Self as super::TryFromValue>::decoded(value@) == Err::<
                    <Self as super::TryFromValue>::Model,
                    Failure,
                >(e.kind@),
            },
    {
        <Self as super::TryFromValue>::try_from(value)
    }
}

impl TryFromSpecImpl<Value> for Vec<u8> {
    open spec fn obeys_try_from_spec() -> bool {
        false
    }

    open spec fn try_from_spec(value: Value) -> Result<Self, ConversionError> {
        arbitrary()
    }
}

impl TryFrom<Value> for Option<Vec<u8>> {
    type Error = ConversionError;

    fn try_from(value: Value) -> (r: Result<Self, ConversionError>)
        ensures
            match r {
                Ok(x) => <Self as super::TryFromValue>::decoded(value@) == Ok::<
                    <Self as super::TryFromValue>::Model,
                    Failure,
                >(<Self as super::TryFromValue>::model(&x))
                    && <Self as super::TryFromValue>::made_from(&x, value@),
                Err(e) => <Self as super::TryFromValue>::decoded(value@) == Err::<
                    <Self as super::TryFromValue>::Model,
                    Failure,
                >(e.kind@),
            },
    {
        <Self as super::TryFromValue>::try_from(value)
    }
}

impl TryFromSpecImpl<Value> for Option<Vec<u8>> {
    open spec fn obeys_try_from_spec() -> bool {
        false
    }

    open spec fn try_from_spec(value: Value) -> Result<Self, ConversionError> {
        arbitrary()
    }
}

impl TryFrom<Value> for Decimal {
    type Error = ConversionError;

    fn try_from(value: Value) -> (r: Result<Self, ConversionError>)
        ensures
            match r {
                Ok(x) => <Self as super::TryFromValue>::decoded(value@) == Ok::<
                    <Self as super::TryFromValue>::Model,
                    Failure,
                >(<Self as super::TryFromValue>::model(&x))
                    && <Self as super::TryFromValue>::made_from(&x, value@),
                Err(e) => <Self as super::TryFromValue>::decoded(value@) == Err::<
                    <Self as super::TryFromValue>::Model,
                    Failure,
                >(e.kind@),
            },
    {
        <Self as super::TryFromValue>::try_from(value)
    }
}

impl TryFromSpecImpl<Value> for Decimal {
    open spec fn obeys_try_from_spec() -> bool {
        false
    }

    open spec fn try_from_spec(value: Value) -> Result<Self, ConversionError> {
        arbitrary()
    }
}

impl TryFrom<Value> for Option<Decimal> {
    type Error = ConversionError;

    fn try_from(value: Value) -> (r: Result<Self, ConversionError>)
        ensures
            match r {
                Ok(x) => <Self as super::TryFromValue>::decoded(value@) == Ok::<
                    <Self as super::TryFromValue>::Model,
                    Failure,
                >(<Self as super::TryFromValue>::model(&x))
                    && <Self as super::TryFromValue>::made_from(&x, value@),
                Err(e) => <Self as super::TryFromValue>::decoded(value@) == Err::<
                    <Self as super::TryFromValue>::Model,
                    Failure,
                >(e.kind@),
            },
    {
        <Self as super::TryFromValue>::try_from(value)
    }
}

impl TryFromSpecImpl<Value> for Option<Decimal> {
    open spec fn obeys_try_from_spec() -> bool {
        false
    }

    open spec fn try_from_spec(value: Value) -> Result<Self, ConversionError> {
        arbitrary()
    }
}

impl TryFrom<Value> for Inet {
    type Error = ConversionError;

    fn try_from(value: Value) -> (r: Result<Self, ConversionError>)
        ensures
            match r {
                Ok(x) => <Self as super::TryFromValue>::decoded(value@) == Ok::<
                    <Self as super::TryFromValue>::Model,
                    Failure,
                >(<Self as super::TryFromValue>::model(&x))
                    && <Self as super::TryFromValue>::made_from(&x, value@),
                Err(e) => <Self as super::TryFromValue>::decoded(value@) == Err::<
                    <Self as super::TryFromValue>::Model,
                    Failure,
                >(e.kind@),
            },
    {
        <Self as super::TryFromValue>::try_from(value)
    }
}

impl TryFromSpecImpl<Value> for Inet {
    open spec fn obeys_try_from_spec() -> bool {
        false
    }

    open spec fn try_from_spec(value: Value) -> Result<Self, ConversionError> {
        arbitrary()
    }
}

impl TryFrom<Value> for Option<Inet> {
    type Error = ConversionError;

    fn try_from(value: Value) -> (r: Result<Self, ConversionError>)
        ensures
            match r {
                Ok(x) => <Self as super::TryFromValue>::decoded(value@) == Ok::<
                    <Self as super::TryFromValue>::Model,
                    Failure,
                >(<Self as super::TryFromValue>::model(&x))
                    && <Self as super::TryFromValue>::made_from(&x, value@),
                Err(e) => <Self as super::TryFromValue>::decoded(value@) == Err::<
                    <Self as super::TryFromValue>::Model,
                    Failure,
                >(e.kind@),
            },
    {
        <Self as super::TryFromValue>::try_from(value)
    }
}

impl TryFromSpecImpl<Value> for Option<Inet> {
    open spec fn obeys_try_from_spec() -> bool {
        false
    }

    open spec fn try_from_spec(value: Value) -> Result<Self, ConversionError> {
        arbitrary()
    }
}

impl TryFrom<Value> for UdtValue {
    type Error = ConversionError;

    fn try_from(value: Value) -> (r: Result<Self, ConversionError>)
        ensures
            match r {
                Ok(x) => <Self as super::TryFromValue>::decoded(value@) == Ok::<
                    <Self as super::TryFromValue>::Model,
                    Failure,
                >(<Self as super::TryFromValue>::model(&x))
                    && <Self as super::TryFromValue>::made_from(&x, value@),
                Err(e) => <Self as super::TryFromValue>::decoded(value@) == Err::<
                    <Self as super::TryFromValue>::Model,
                    Failure,
                >(e.kind@),
            },
    {
        <Self as super::TryFromValue>::try_from(value)
    }
}

impl TryFromSpecImpl<Value> for UdtValue {
    open spec fn obeys_try_from_spec() -> bool {
        false
    }

    open spec fn try_from_spec(value: Value) -> Result<Self, ConversionError> {
        arbitrary()
    }
}

impl TryFrom<Value> for Option<UdtValue> {
    type Error = ConversionError;

    fn try_from(value: Value) -> (r: Result<Self, ConversionError>)
        ensures
            match r {
                Ok(x) => <Self as super::TryFromValue>::decoded(value@) == Ok::<
                    <Self as super::TryFromValue>::Model,
                    Failure,
                >(<Self as super::TryFromValue>::model(&x))
                    && <Self as super::TryFromValue>::made_from(&x, value@),
                Err(e) => <Self as super::TryFromValue>::decoded(value@) == Err::<
                    <Self as super::TryFromValue>::Model,
                    Failure,
                >(e.kind@),
            },
    {
        <Self as super::TryFromValue>::try_from(value)
    }
}

impl TryFromSpecImpl<Value> for Option<UdtValue> {
    open spec fn obeys_try_from_spec() -> bool {
        false
    }

    open spec fn try_from_spec(value: Value) -> Result<Self, ConversionError> {
        arbitrary()
    }
}

impl TryFrom<Value> for Uuid {
    type Error = ConversionError;

    fn try_from(value: Value) -> (r: Result<Self, ConversionError>)
        ensures
            match r {
                Ok(x) => <Self as super::TryFromValue>::decoded(value@) == Ok::<
                    <Self as super::TryFromValue>::Model,
                    Failure,
                >(<Self as super::TryFromValue>::model(&x))
                    && <Self as super::TryFromValue>::made_from(&x, value@),
                Err(e) => <Self as super::TryFromValue>::decoded(value@) == Err::<
                    <Self as super::TryFromValue>::Model,
                    Failure,
                >(e.kind@),
            },
    {
        <Self as super::TryFromValue>::try_from(value)
    }
}

impl TryFromSpecImpl<Value> for Uuid {
    open spec fn obeys_try_from_spec() -> bool {
        false
    }

    open spec fn try_from_spec(value: Value) -> Result<Self, ConversionError> {
        arbitrary()
    }
}

impl TryFrom<Value> for Option<Uuid> {
    type Error = ConversionError;

    fn try_from(value: Value) -> (r: Result<Self, ConversionError>)
        ensures
            match r {
                Ok(x) => <Self as super::TryFromValue>::decoded(value@) == Ok::<
                    <Self as super::TryFromValue>::Model,
                    Failure,
                >(<Self as super::TryFromValue>::model(&x))
                    && <Self as super::TryFromValue>::made_from(&x, value@),
                Err(e) => <Self as super::TryFromValue>::decoded(value@) == Err::<
                    <Self as super::TryFromValue>::Model,
                    Failure,
                >(e.kind@),
            },
    {
        <Self as super::TryFromValue>::try_from(value)
    }
}

impl TryFromSpecImpl<Value> for Option<Uuid> {
    open spec fn obeys_try_from_spec() -> bool {
        false
    }

    open spec fn try_from_spec(value: Value) -> Result<Self, ConversionError> {
        arbitrary()
    }
}

impl TryFrom<Value> for Varint {
    type Error = ConversionError;

    fn try_from(value: Value) -> (r: Result<Self, ConversionError>)
        ensures
            match r {
                Ok(x) => <Self as super::TryFromValue>::decoded(value@) == Ok::<
                    <Self as super::TryFromValue>::Model,
                    Failure,
                >(<Self as super::TryFromValue>::model(&x))
                    && <Self as super::TryFromValue>::made_from(&x, value@),
                Err(e) => <Self as super::TryFromValue>::decoded(value@) == Err::<
                    <Self as super::TryFromValue>::Model,
                    Failure,
                >(e.kind@),
            },
    {
        <Self as super::TryFromValue>::try_from(value)
    }
}

impl TryFromSpecImpl<Value> for Varint {
    open spec fn obeys_try_from_spec() -> bool {
        false
    }

    open spec fn try_from_spec(value: Value) -> Result<Self, ConversionError> {
        arbitrary()
    }
}

impl TryFrom<Value> for Option<Varint> {
    type Error = ConversionError;

    fn try_from(value: Value) -> (r: Result<Self, ConversionError>)
        ensures
            match r {
                Ok(x) => <Self as super::TryFromValue>::decoded(value@) == Ok::<
                    <Self as super::TryFromValue>::Model,
                    Failure,
                >(<Self as super::TryFromValue>::model(&x))
                    && <Self as super::TryFromValue>::made_from(&x, value@),
                Err(e) => <Self as super::TryFromValue>::decoded(value@) == Err::<
                    <Self as super::TryFromValue>::Model,
                    Failure,
                >(e.kind@),
            },
    {
        <Self as super::TryFromValue>::try_from(value)
    }
}

impl TryFromSpecImpl<Value> for Option<Varint> {
    open spec fn obeys_try_from_spec() -> bool {
        false
    }

    open spec fn try_from_spec(value: Value) -> Result<Self, ConversionError> {
        arbitrary()
    }
}

impl TryFrom<Value> for [u8; 16] {
    type Error = ConversionError;

    fn try_from(value: Value) -> (r: Result<Self, ConversionError>)
        ensures
            match r {
                Ok(x) => <Self as super::TryFromValue>::decoded(value@) == Ok::<
                    <Self as super::TryFromValue>::Model,
                    Failure,
                >(<Self as super::TryFromValue>::model(&x))
                    && <Self as super::TryFromValue>::made_from(&x, value@),
                Err(e) => <Self as super::TryFromValue>::decoded(value@) == Err::<
                    <Self as super::TryFromValue>::Model,
                    Failure,
                >(e.kind@),
            },
    {
        <Self as super::TryFromValue>::try_from(value)
    }
}

impl TryFromSpecImpl<Value> for [u8; 16] {
    open spec fn obeys_try_from_spec() -> bool {
        false
    }

    open spec fn try_from_spec(value: Value) -> Result<Self, ConversionError> {
        arbitrary()
    }
}

impl TryFrom<Value> for Option<[u8; 16]> {
    type Error = ConversionError;

    fn try_from(value: Value) -> (r: Result<Self, ConversionError>)
        ensures
            match r {
                Ok(x) => <Self as super::TryFromValue>::decoded(value@) == Ok::<
                    <Self as super::TryFromValue>::Model,
                    Failure,
                >(<Self as super::TryFromValue>::model(&x))
                    && <Self as super::TryFromValue>::made_from(&x, value@),
                Err(e) => <Self as super::TryFromValue>::decoded(value@) == Err::<
                    <Self as super::TryFromValue>::Model,
                    Failure,
                >(e.kind@),
            },
    {
        <Self as super::TryFromValue>::try_from(value)
    }
}

impl TryFromSpecImpl<Value> for Option<[u8; 16]> {
    open spec fn obeys_try_from_spec() -> bool {
        false
    }

    open spec fn try_from_spec(value: Value) -> Result<Self, ConversionError> {
        arbitrary()
    }
}

impl<T: super::TryFromValue> TryFrom<Value> for Vec<T> {
    type Error = ConversionError;

    fn try_from(value: Value) -> (r: Result<Self, ConversionError>)
        ensures
            match r {
                Ok(x) => <Self as super::TryFromValue>::decoded(value@) == Ok::<
                    <Self as super::TryFromValue>::Model,
                    Failure,
                >(<Self as super::TryFromValue>::model(&x))
                    && <Self as super::TryFromValue>::made_from(&x, value@),
                Err(e) => <Self as super::TryFromValue>::decoded(value@) == Err::<
                    <Self as super::TryFromValue>::Model,
                    Failure,
                >(e.kind@),
            },
    {
        <Self as super::TryFromValue>::try_from(value)
    }
}

impl<T: super::TryFromValue> TryFromSpecImpl<Value> for Vec<T> {
    open spec fn obeys_try_from_spec() -> bool {
        false
    }

    open spec fn try_from_spec(value: Value) -> Result<Self, ConversionError> {
        arbitrary()
    }
}

impl<T: super::TryFromValue> TryFrom<Value> for Option<Vec<T>> {
    type Error = ConversionError;

    fn try_from(value: Value) -> (r: Result<Self, ConversionError>)
        ensures
            match r {
                Ok(x) => <Self as super::TryFromValue>::decoded(value@) == Ok::<
                    <Self as super::TryFromValue>::Model,
                    Failure,
                >(<Self as super::TryFromValue>::model(&x))
                    && <Self as super::TryFromValue>::made_from(&x, value@),
                Err(e) => <Self as super::TryFromValue>::decoded(value@) == Err::<
                    <Self as super::TryFromValue>::Model,
                    Failure,
                >(e.kind@),
            },
    {
        <Self as super::TryFromValue>::try_from(value)
    }
}

impl<T: super::TryFromValue> TryFromSpecImpl<Value> for Option<Vec<T>> {
    open spec fn obeys_try_from_spec() -> bool {
        false
    }

    open spec fn try_from_spec(value: Value) -> Result<Self, ConversionError> {
        arbitrary()
    }
}

impl<
    K: super::TryFromValue,
    V: super::TryFromValue,
> TryFrom<Value> for Vec<KeyValue<K, V>> {
    type Error = ConversionError;

    fn try_from(value: Value) -> (r: Result<Self, ConversionError>)
        ensures
            match r {
                Ok(x) => <Self as super::TryFromValue>::decoded(value@) == Ok::<
                    <Self as super::TryFromValue>::Model,
                    Failure,
                >(<Self as super::TryFromValue>::model(&x))
                    && <Self as super::TryFromValue>::made_from(&x, value@),
                Err(e) => <Self as super::TryFromValue>::decoded(value@) == Err::<
                    <Self as super::TryFromValue>::Model,
                    Failure,
                >(e.kind@),
            },
    {
        <Self as super::TryFromValue>::try_from(value)
    }
}

impl<
    K: super::TryFromValue,
    V: super::TryFromValue,
> TryFromSpecImpl<Value> for Vec<KeyValue<K, V>> {
    open spec fn obeys_try_from_spec() -> bool {
        false
    }

    open spec fn try_from_spec(value: Value) -> Result<Self, ConversionError> {
        arbitrary()
    }
}

impl<
    K: super::TryFromValue,
    V: super::TryFromValue,
> TryFrom<Value> for Option<Vec<KeyValue<K, V>>> {
    type Error = ConversionError;

    fn try_from(value: Value) -> (r: Result<Self, ConversionError>)
        ensures
            match r {
                Ok(x) => <Self as super::TryFromValue>::decoded(value@) == Ok::<
                    <Self as super::TryFromValue>::Model,
                    Failure,
                >(<Self as super::TryFromValue>::model(&x))
                    && <Self as super::TryFromValue>::made_from(&x, value@),
                Err(e) => <Self as super::TryFromValue>::decoded(value@) == Err::<
                    <Self as super::TryFromValue>::Model,
                    Failure,
                >(e.kind@),
            },
    {
        <Self as super::TryFromValue>::try_from(value)
    }
}

impl<
    K: super::TryFromValue,
    V: super::TryFromValue,
> TryFromSpecImpl<Value> for Option<Vec<KeyValue<K, V>>> {
    open spec fn obeys_try_from_spec() -> bool {
        false
    }

    open spec fn try_from_spec(value: Value) -> Result<Self, ConversionError> {
        arbitrary()
    }
}

impl<
    K: super::TryFromValue + Eq + Hash,
    V: super::TryFromValue,
> TryFrom<Value> for HashMap<K, V> {
    type Error = ConversionError;

    fn try_from(value: Value) -> (r: Result<Self, ConversionError>)
        ensures
            match r {
                Ok(x) => <Self as super::TryFromValue>::decoded(value@) == Ok::<
                    <Self as super::TryFromValue>::Model,
                    Failure,
                >(<Self as super::TryFromValue>::model(&x))
                    && <Self as super::TryFromValue>::made_from(&x, value@),
                Err(e) => <Self as super::TryFromValue>::decoded(value@) == Err::<
                    <Self as super::TryFromValue>::Model,
                    Failure,
                >(e.kind@),
            },
    {
        <Self as super::TryFromValue>::try_from(value)
    }
}

impl<
    K: super::TryFromValue + Eq + Hash,
    V: super::TryFromValue,
> TryFromSpecImpl<Value> for HashMap<K, V> {
    open spec fn obeys_try_from_spec() -> bool {
        false
    }

    open spec fn try_from_spec(value: Value) -> Result<Self, ConversionError> {
        arbitrary()
    }
}

impl<
    K: super::TryFromValue + Eq + Hash,
    V: super::TryFromValue,
> TryFrom<Value> for Option<HashMap<K, V>> {
    type Error = ConversionError;

    fn try_from(value: Value) -> (r: Result<Self, ConversionError>)
        ensures
            match r {
                Ok(x) => <Self as super::TryFromValue>::decoded(value@) == Ok::<
                    <Self as super::TryFromValue>::Model,
                    Failure,
                >(<Self as super::TryFromValue>::model(&x))
                    && <Self as super::TryFromValue>::made_from(&x, value@),
                Err(e) => <Self as super::TryFromValue>::decoded(value@) == Err::<
                    <Self as super::TryFromValue>::Model,
                    Failure,
                >(e.kind@),
            },
    {
        <Self as super::TryFromValue>::try_from(value)
    }
}

impl<
    K: super::TryFromValue + Eq + Hash,
    V: super::TryFromValue,
> TryFromSpecImpl<Value> for Option<HashMap<K, V>> {
    open spec fn obeys_try_from_spec() -> bool {
        false
    }

    open spec fn try_from_spec(value: Value) -> Result<Self, ConversionError> {
        arbitrary()
    }
}

impl<
    K: super::TryFromValue + Ord,
    V: super::TryFromValue,
> TryFrom<Value> for BTreeMap<K, V> {
    type Error = ConversionError;

    fn try_from(value: Value) -> (r: Result<Self, ConversionError>)
        ensures
            match r {
                Ok(x) => <Self as super::TryFromValue>::decoded(value@) == Ok::<
                    <Self as super::TryFromValue>::Model,
                    Failure,
                >(<Self as super::TryFromValue>::model(&x))
                    && <Self as super::TryFromValue>::made_from(&x, value@),
                Err(e) => <Self as super::TryFromValue>::decoded(value@) == Err::<
                    <Self as super::TryFromValue>::Model,
                    Failure,
                >(e.kind@),
            },
    {
        <Self as super::TryFromValue>::try_from(value)
    }
}

impl<
    K: super::TryFromValue + Ord,
    V: super::TryFromValue,
> TryFromSpecImpl<Value> for BTreeMap<K, V> {
    open spec fn obeys_try_from_spec() -> bool {
        false
    }

    open spec fn try_from_spec(value: Value) -> Result<Self, ConversionError> {
        arbitrary()
    }
}

impl<
    K: super::TryFromValue + Ord,
    V: super::TryFromValue,
> TryFrom<Value> for Option<BTreeMap<K, V>> {
    type Error = ConversionError;

    fn try_from(value: Value) -> (r: Result<Self, ConversionError>)
        ensures
            match r {
                Ok(x) => <Self as super::TryFromValue>::decoded(value@) == Ok::<
                    <Self as super::TryFromValue>::Model,
                    Failure,
                >(<Self as super::TryFromValue>::model(&x))
                    && <Self as super::TryFromValue>::made_from(&x, value@),
                Err(e) => <Self as super::TryFromValue>::decoded(value@) == Err::<
                    <Self as super::TryFromValue>::Model,
                    Failure,
                >(e.kind@),
            },
    {
        <Self as super::TryFromValue>::try_from(value)
    }
}

impl<
    K: super::TryFromValue + Ord,
    V: super::TryFromValue,
> TryFromSpecImpl<Value> for Option<BTreeMap<K, V>> {
    open spec fn obeys_try_from_spec() -> bool {
        false
    }

    open spec fn try_from_spec(value: Value) -> Result<Self, ConversionError> {
        arbitrary()
    }
}

impl<A0: super::TryFromValue, A1: super::TryFromValue> TryFrom<Value> for (A0, A1) {
    type Error = ConversionError;

    fn try_from(value: Value) -> (r: Result<Self, ConversionError>)
        ensures
            match r {
                Ok(x) => <Self as super::TryFromValue>::decoded(value@) == Ok::<
                    <Self as super::TryFromValue>::Model,
                    Failure,
                >(<Self as super::TryFromValue>::model(&x))
                    && <Self as super::TryFromValue>::made_from(&x, value@),
                Err(e) => <Self as super::TryFromValue>::decoded(value@) == Err::<
                    <Self as super::TryFromValue>::Model,
                    Failure,
                >(e.kind@),
            },
    {
        <Self as super::TryFromValue>::try_from(value)
    }
}

impl<A0: super::TryFromValue, A1: super::TryFromValue> TryFromSpecImpl<Value> for (A0, A1) {
    open spec fn obeys_try_from_spec() -> bool {
        false
    }

    open spec fn try_from_spec(value: Value) -> Result<Self, ConversionError> {
        arbitrary()
    }
}

impl<
    A0: super::TryFromValue,
    A1: super::TryFromValue,
    A2: super::TryFromValue,
> TryFrom<Value> for (A0, A1, A2) {
    type Error = ConversionError;

    fn try_from(value: Value) -> (r: Result<Self, ConversionError>)
        ensures
            match r {
                Ok(x) => <Self as super::TryFromValue>::decoded(value@) == Ok::<
                    <Self as super::TryFromValue>::Model,
                    Failure,
                >(<Self as super::TryFromValue>::model(&x))
                    && <Self as super::TryFromValue>::made_from(&x, value@),
                Err(e) => <Self as super::TryFromValue>::decoded(value@) == Err::<
                    <Self as super::TryFromValue>::Model,
                    Failure,
                >(e.kind@),
            },
    {
        <Self as super::TryFromValue>::try_from(value)
    }
}

impl<
    A0: super::TryFromValue,
    A1: super::TryFromValue,
    A2: super::TryFromValue,
> TryFromSpecImpl<Value> for (A0, A1, A2) {
    open spec fn obeys_try_from_spec() -> bool {
        false
    }

    open spec fn try_from_spec(value: Value) -> Result<Self, ConversionError> {
        arbitrary()
    }
}

impl<
    A0: super::TryFromValue,
    A1: super::TryFromValue,
    A2: super::TryFromValue,
    A3: super::TryFromValue,
> TryFrom<Value> for (A0, A1, A2, A3) {
    type Error = ConversionError;

    fn try_from(value: Value) -> (r: Result<Self, ConversionError>)
        ensures
            match r {
                Ok(x) => <Self as super::TryFromValue>::decoded(value@) == Ok::<
                    <Self as super::TryFromValue>::Model,
                    Failure,
                >(<Self as super::TryFromValue>::model(&x))
                    && <Self as super::TryFromValue>::made_from(&x, value@),
                Err(e) => <Self as super::TryFromValue>::decoded(value@) == Err::<
                    <Self as super::TryFromValue>::Model,
                    Failure,
                >(e.kind@),
            },
    {
        <Self as super::TryFromValue>::try_from(value)
    }
}

impl<
    A0: super::TryFromValue,
    A1: super::TryFromValue,
    A2: super::TryFromValue,
    A3: super::TryFromValue,
> TryFromSpecImpl<Value> for (A0, A1, A2, A3) {
    open spec fn obeys_try_from_spec() -> bool {
        false
    }

    open spec fn try_from_spec(value: Value) -> Result<Self, ConversionError> {
        arbitrary()
    }
}

impl<
    A0: super::TryFromValue,
    A1: super::TryFromValue,
    A2: super::TryFromValue,
    A3: super::TryFromValue,
    A4: super::TryFromValue,
> TryFrom<Value> for (A0, A1, A2, A3, A4) {
    type Error = ConversionError;

    fn try_from(value: Value) -> (r: Result<Self, ConversionError>)
        ensures
            match r {
                Ok(x) => <Self as super::TryFromValue>::decoded(value@) == Ok::<
                    <Self as super::TryFromValue>::Model,
                    Failure,
                >(<Self as super::TryFromValue>::model(&x))
                    && <Self as super::TryFromValue>::made_from(&x, value@),
                Err(e) => <Self as super::TryFromValue>::decoded(value@) == Err::<
                    <Self as super::TryFromValue>::Model,
                    Failure,
                >(e.kind@),
            },
    {
        <Self as super::TryFromValue>::try_from(value)
    }
}

impl<
    A0: super::TryFromValue,
    A1: super::TryFromValue,
    A2: super::TryFromValue,
    A3: super::TryFromValue,
    A4: super::TryFromValue,
> TryFromSpecImpl<Value> for (A0, A1, A2, A3, A4) {
    open spec fn obeys_try_from_spec() -> bool {
        false
    }

    open spec fn try_from_spec(value: Value) -> Result<Self, ConversionError> {
        arbitrary()
    }
}

impl<
    A0: super::TryFromValue,
    A1: super::TryFromValue,
    A2: super::TryFromValue,
    A3: super::TryFromValue,
    A4: super::TryFromValue,
    A5: super::TryFromValue,
> TryFrom<Value> for (A0, A1, A2, A3, A4, A5) {
    type Error = ConversionError;

    fn try_from(value: Value) -> (r: Result<Self, ConversionError>)
        ensures
            match r {
                Ok(x) => <Self as super::TryFromValue>::decoded(value@) == Ok::<
                    <Self as super::TryFromValue>::Model,
                    Failure,
                >(<Self as super::TryFromValue>::model(&x))
                    && <Self as super::TryFromValue>::made_from(&x, value@),
                Err(e) => <Self as super::TryFromValue>::decoded(value@) == Err::<
                    <Self as super::TryFromValue>::Model,
                    Failure,
                >(e.kind@),
            },
    {
        <Self as super::TryFromValue>::try_from(value)
    }
}

impl<
    A0: super::TryFromValue,
    A1: super::TryFromValue,
    A2: super::TryFromValue,
    A3: super::TryFromValue,
    A4: super::TryFromValue,
    A5: super::TryFromValue,
> TryFromSpecImpl<Value> for (A0, A1, A2, A3, A4, A5) {
    open spec fn obeys_try_from_spec() -> bool {
        false
    }

    open spec fn try_from_spec(value: Value) -> Result<Self, ConversionError> {
        arbitrary()
    }
}

impl<
    A0: super::TryFromValue,
    A1: super::TryFromValue,
    A2: super::TryFromValue,
    A3: super::TryFromValue,
    A4: super::TryFromValue,
    A5: super::TryFromValue,
    A6: super::TryFromValue,
> TryFrom<Value> for (A0, A1, A2, A3, A4, A5, A6) {
    type Error = ConversionError;

    fn try_from(value: Value) -> (r: Result<Self, ConversionError>)
        ensures
            match r {
                Ok(x) => <Self as super::TryFromValue>::decoded(value@) == Ok::<
                    <Self as super::TryFromValue>::Model,
                    Failure,
                >(<Self as super::TryFromValue>::model(&x))
                    && <Self as super::TryFromValue>::made_from(&x, value@),
                Err(e) => <Self as super::TryFromValue>::decoded(value@) == Err::<
                    <Self as super::TryFromValue>::Model,
                    Failure,
                >(e.kind@),
            },
    {
        <Self as super::TryFromValue>::try_from(value)
    }
}

impl<
    A0: super::TryFromValue,
    A1: super::TryFromValue,
    A2: super::TryFromValue,
    A3: super::TryFromValue,
    A4: super::TryFromValue,
    A5: super::TryFromValue,
    A6: super::TryFromValue,
> TryFromSpecImpl<Value> for (A0, A1, A2, A3, A4, A5, A6) {
    open spec fn obeys_try_from_spec() -> bool {
        false
    }

    open spec fn try_from_spec(value: Value) -> Result<Self, ConversionError> {
        arbitrary()
    }
}

impl<
    A0: super::TryFromValue,
    A1: super::TryFromValue,
    A2: super::TryFromValue,
    A3: super::TryFromValue,
    A4: super::TryFromValue,
    A5: super::TryFromValue,
    A6: super::TryFromValue,
    A7: super::TryFromValue,
> TryFrom<Value> for (A0, A1, A2, A3, A4, A5, A6, A7) {
    type Error = ConversionError;

    fn try_from(value: Value) -> (r: Result<Self, ConversionError>)
        ensures
            match r {
                Ok(x) => <Self as super::TryFromValue>::decoded(value@) == Ok::<
                    <Self as super::TryFromValue>::Model,
                    Failure,
                >(<Self as super::TryFromValue>::model(&x))
                    && <Self as super::TryFromValue>::made_from(&x, value@),
                Err(e) => <Self as super::TryFromValue>::decoded(value@) == Err::<
                    <Self as super::TryFromValue>::Model,
                    Failure,
                >(e.kind@),
            },
    {
        <Self as super::TryFromValue>::try_from(value)
    }
}

impl<
    A0: super::TryFromValue,
    A1: super::TryFromValue,
    A2: super::TryFromValue,
    A3: super::TryFromValue,
    A4: super::TryFromValue,
    A5: super::TryFromValue,
    A6: super::TryFromValue,
    A7: super::TryFromValue,
> TryFromSpecImpl<Value> for (A0, A1, A2, A3, A4, A5, A6, A7) {
    open spec fn obeys_try_from_spec() -> bool {
        false
    }

    open spec fn try_from_spec(value: Value) -> Result<Self, ConversionError> {
        arbitrary()
    }
}

impl<
    A0: super::TryFromValue,
    A1: super::TryFromValue,
    A2: super::TryFromValue,
    A3: super::TryFromValue,
    A4: super::TryFromValue,
    A5: super::TryFromValue,
    A6: super::TryFromValue,
    A7: super::TryFromValue,
    A8: super::TryFromValue,
> TryFrom<Value> for (A0, A1, A2, A3, A4, A5, A6, A7, A8) {
    type Error = ConversionError;

    fn try_from(value: Value) -> (r: Result<Self, ConversionError>)
        ensures
            match r {
                Ok(x) => <Self as super::TryFromValue>::decoded(value@) == Ok::<
                    <Self as super::TryFromValue>::Model,
                    Failure,
                >(<Self as super::TryFromValue>::model(&x))
                    && <Self as super::TryFromValue>::made_from(&x, value@),
                Err(e) => <Self as super::TryFromValue>::decoded(value@) == Err::<
                    <Self as super::TryFromValue>::Model,
                    Failure,
                >(e.kind@),
            },
    {
        <Self as super::TryFromValue>::try_from(value)
    }
}

impl<
    A0: super::TryFromValue,
    A1: super::TryFromValue,
    A2: super::TryFromValue,
    A3: super::TryFromValue,
    A4: super::TryFromValue,
    A5: super::TryFromValue,
    A6: super::TryFromValue,
    A7: super::TryFromValue,
    A8: super::TryFromValue,
> TryFromSpecImpl<Value> for (A0, A1, A2, A3, A4, A5, A6, A7, A8) {
    open spec fn obeys_try_from_spec() -> bool {
        false
    }

    open spec fn try_from_spec(value: Value) -> Result<Self, ConversionError> {
        arbitrary()
    }
}

impl<
    A0: super::TryFromValue,
    A1: super::TryFromValue,
    A2: super::TryFromValue,
    A3: super::TryFromValue,
    A4: super::TryFromValue,
    A5: super::TryFromValue,
    A6: super::TryFromValue,
    A7: super::TryFromValue,
    A8: super::TryFromValue,
    A9: super::TryFromValue,
> TryFrom<Value> for (A0, A1, A2, A3, A4, A5, A6, A7, A8, A9) {
    type Error = ConversionError;

    fn try_from(value: Value) -> (r: Result<Self, ConversionError>)
        ensures
            match r {
                Ok(x) => <Self as super::TryFromValue>::decoded(value@) == Ok::<
                    <Self as super::TryFromValue>::Model,
                    Failure,
                >(<Self as super::TryFromValue>::model(&x))
                    && <Self as super::TryFromValue>::made_from(&x, value@),
                Err(e) => <Self as super::TryFromValue>::decoded(value@) == Err::<
                    <Self as super::TryFromValue>::Model,
                    Failure,
                >(e.kind@),
            },
    {
        <Self as super::TryFromValue>::try_from(value)
    }
}

impl<
    A0: super::TryFromValue,
    A1: super::TryFromValue,
    A2: super::TryFromValue,
    A3: super::TryFromValue,
    A4: super::TryFromValue,
    A5: super::TryFromValue,
    A6: super::TryFromValue,
    A7: super::TryFromValue,
    A8: super::TryFromValue,
    A9: super::TryFromValue,
> TryFromSpecImpl<Value> for (A0, A1, A2, A3, A4, A5, A6, A7, A8, A9) {
    open spec fn obeys_try_from_spec() -> bool {
        false
    }

    open spec fn try_from_spec(value: Value) -> Result<Self, ConversionError> {
        arbitrary()
    }
}

impl<
    A0: super::TryFromValue,
    A1: super::TryFromValue,
    A2: super::TryFromValue,
    A3: super::TryFromValue,
    A4: super::TryFromValue,
    A5: super::TryFromValue,
    A6: super::TryFromValue,
    A7: super::TryFromValue,
    A8: super::TryFromValue,
    A9: super::TryFromValue,
    A10: super::TryFromValue,
> TryFrom<Value> for (A0, A1, A2, A3, A4, A5, A6, A7, A8, A9, A10) {
    type Error = ConversionError;

    fn try_from(value: Value) -> (r: Result<Self, ConversionError>)
        ensures
            match r {
                Ok(x) => <Self as super::TryFromValue>::decoded(value@) == Ok::<
                    <Self as super::TryFromValue>::Model,
                    Failure,
                >(<Self as super::TryFromValue>::model(&x))
                    && <Self as super::TryFromValue>::made_from(&x, value@),
                Err(e) => <Self as super::TryFromValue>::decoded(value@) == Err::<
                    <Self as super::TryFromValue>::Model,
                    Failure,
                >(e.kind@),
            },
    {
        <Self as super::TryFromValue>::try_from(value)
    }
}

impl<
    A0: super::TryFromValue,
    A1: super::TryFromValue,
    A2: super::TryFromValue,
    A3: super::TryFromValue,
    A4: super::TryFromValue,
    A5: super::TryFromValue,
    A6: super::TryFromValue,
    A7: super::TryFromValue,
    A8: super::TryFromValue,
    A9: super::TryFromValue,
    A10: super::TryFromValue,
> TryFromSpecImpl<Value> for (A0, A1, A2, A3, A4, A5, A6, A7, A8, A9, A10) {
    open spec fn obeys_try_from_spec() -> bool {
        false
    }

    open spec fn try_from_spec(value: Value) -> Result<Self, ConversionError> {
        arbitrary()
    }
}

impl<
    A0: super::TryFromValue,
    A1: super::TryFromValue,
    A2: super::TryFromValue,
    A3: super::TryFromValue,
    A4: super::TryFromValue,
    A5: super::TryFromValue,
    A6: super::TryFromValue,
    A7: super::TryFromValue,
    A8: super::TryFromValue,
    A9: super::TryFromValue,
    A10: super::TryFromValue,
    A11: super::TryFromValue,
> TryFrom<Value> for (A0, A1, A2, A3, A4, A5, A6, A7, A8, A9, A10, A11) {
    type Error = ConversionError;

    fn try_from(value: Value) -> (r: Result<Self, ConversionError>)
        ensures
            match r {
                Ok(x) => <Self as super::TryFromValue>::decoded(value@) == Ok::<
                    <Self as super::TryFromValue>::Model,
                    Failure,
                >(<Self as super::TryFromValue>::model(&x))
                    && <Self as super::TryFromValue>::made_from(&x, value@),
                Err(e) => <Self as super::TryFromValue>::decoded(value@) == Err::<
                    <Self as super::TryFromValue>::Model,
                    Failure,
                >(e.kind@),
            },
    {
        <Self as super::TryFromValue>::try_from(value)
    }
}

impl<
    A0: super::TryFromValue,
    A1: super::TryFromValue,
    A2: super::TryFromValue,
    A3: super::TryFromValue,
    A4: super::TryFromValue,
    A5: super::TryFromValue,
    A6: super::TryFromValue,
    A7: super::TryFromValue,
    A8: super::TryFromValue,
    A9: super::TryFromValue,
    A10: super::TryFromValue,
    A11: super::TryFromValue,
> TryFromSpecImpl<Value> for (A0, A1, A2, A3, A4, A5, A6, A7, A8, A9, A10, A11) {
    open spec fn obeys_try_from_spec() -> bool {
        false
    }

    open spec fn try_from_spec(value: Value) -> Result<Self, ConversionError> {
        arbitrary()
    }
}

impl<
    A0: super::TryFromValue,
    A1: super::TryFromValue,
    A2: super::TryFromValue,
    A3: super::TryFromValue,
    A4: super::TryFromValue,
    A5: super::TryFromValue,
    A6: super::TryFromValue,
    A7: super::TryFromValue,
    A8: super::TryFromValue,
    A9: super::TryFromValue,
    A10: super::TryFromValue,
    A11: super::TryFromValue,
    A12: super::TryFromValue,
> TryFrom<Value> for (A0, A1, A2, A3, A4, A5, A6, A7, A8, A9, A10, A11, A12) {
    type Error = ConversionError;

    fn try_from(value: Value) -> (r: Result<Self, ConversionError>)
        ensures
            match r {
                Ok(x) => <Self as super::TryFromValue>::decoded(value@) == Ok::<
                    <Self as super::TryFromValue>::Model,
                    Failure,
                >(<Self as super::TryFromValue>::model(&x))
                    && <Self as super::TryFromValue>::made_from(&x, value@),
                Err(e) => <Self as super::TryFromValue>::decoded(value@) == Err::<
                    <Self as super::TryFromValue>::Model,
                    Failure,
                >(e.kind@),
            },
    {
        <Self as super::TryFromValue>::try_from(value)
    }
}

impl<
    A0: super::TryFromValue,
    A1: super::TryFromValue,
    A2: super::TryFromValue,
    A3: super::TryFromValue,
    A4: super::TryFromValue,
    A5: super::TryFromValue,
    A6: super::TryFromValue,
    A7: super::TryFromValue,
    A8: super::TryFromValue,
    A9: super::TryFromValue,
    A10: super::TryFromValue,
    A11: super::TryFromValue,
    A12: super::TryFromValue,
> TryFromSpecImpl<Value> for (A0, A1, A2, A3, A4, A5, A6, A7, A8, A9, A10, A11, A12) {
    open spec fn obeys_try_from_spec() -> bool {
        false
    }

    open spec fn try_from_spec(value: Value) -> Result<Self, ConversionError> {
        arbitrary()
    }
}

impl<
    A0: super::TryFromValue,
    A1: super::TryFromValue,
    A2: super::TryFromValue,
    A3: super::TryFromValue,
    A4: super::TryFromValue,
    A5: super::TryFromValue,
    A6: super::TryFromValue,
    A7: super::TryFromValue,
    A8: super::TryFromValue,
    A9: super::TryFromValue,
    A10: super::TryFromValue,
    A11: super::TryFromValue,
    A12: super::TryFromValue,
    A13: super::TryFromValue,
> TryFrom<Value> for (A0, A1, A2, A3, A4, A5, A6, A7, A8, A9, A10, A11, A12, A13) {
    type Error = ConversionError;

    fn try_from(value: Value) -> (r: Result<Self, ConversionError>)
        ensures
            match r {
                Ok(x) => <Self as super::TryFromValue>::decoded(value@) == Ok::<
                    <Self as super::TryFromValue>::Model,
                    Failure,
                >(<Self as super::TryFromValue>::model(&x))
                    && <Self as super::TryFromValue>::made_from(&x, value@),
                Err(e) => <Self as super::TryFromValue>::decoded(value@) == Err::<
                    <Self as super::TryFromValue>::Model,
                    Failure,
                >(e.kind@),
            },
    {
        <Self as super::TryFromValue>::try_from(value)
    }
}

impl<
    A0: super::TryFromValue,
    A1: super::TryFromValue,
    A2: super::TryFromValue,
    A3: super::TryFromValue,
    A4: super::TryFromValue,
    A5: super::TryFromValue,
    A6: super::TryFromValue,
    A7: super::TryFromValue,
    A8: super::TryFromValue,
    A9: super::TryFromValue,
    A10: super::TryFromValue,
    A11: super::TryFromValue,
    A12: super::TryFromValue,
    A13: super::TryFromValue,
> TryFromSpecImpl<Value> for (A0, A1, A2, A3, A4, A5, A6, A7, A8, A9, A10, A11, A12, A13) {
    open spec fn obeys_try_from_spec() -> bool {
        false
    }

    open spec fn try_from_spec(value: Value) -> Result<Self, ConversionError> {
        arbitrary()
    }
}

impl<
    A0: super::TryFromValue,
    A1: super::TryFromValue,
    A2: super::TryFromValue,
    A3: super::TryFromValue,
    A4: super::TryFromValue,
    A5: super::TryFromValue,
    A6: super::TryFromValue,
    A7: super::TryFromValue,
    A8: super::TryFromValue,
    A9: super::TryFromValue,
    A10: super::TryFromValue,
    A11: super::TryFromValue,
    A12: super::TryFromValue,
    A13: super::TryFromValue,
    A14: super::TryFromValue,
> TryFrom<Value> for (A0, A1, A2, A3, A4, A5, A6, A7, A8, A9, A10, A11, A12, A13, A14) {
    type Error = ConversionError;

    fn try_from(value: Value) -> (r: Result<Self, ConversionError>)
        ensures
            match r {
                Ok(x) => <Self as super::TryFromValue>::decoded(value@) == Ok::<
                    <Self as super::TryFromValue>::Model,
                    Failure,
                >(<Self as super::TryFromValue>::model(&x))
                    && <Self as super::TryFromValue>::made_from(&x, value@),
                Err(e) => <Self as super::TryFromValue>::decoded(value@) == Err::<
                    <Self as super::TryFromValue>::Model,
                    Failure,
                >(e.kind@),
            },
    {
        <Self as super::TryFromValue>::try_from(value)
    }
}

impl<
    A0: super::TryFromValue,
    A1: super::TryFromValue,
    A2: super::TryFromValue,
    A3: super::TryFromValue,
    A4: super::TryFromValue,
    A5: super::TryFromValue,
    A6: super::TryFromValue,
    A7: super::TryFromValue,
    A8: super::TryFromValue,
    A9: super::TryFromValue,
    A10: super::TryFromValue,
    A11: super::TryFromValue,
    A12: super::TryFromValue,
    A13: super::TryFromValue,
    A14: super::TryFromValue,
> TryFromSpecImpl<Value> for (A0, A1, A2, A3, A4, A5, A6, A7, A8, A9, A10, A11, A12, A13, A14) {
    open spec fn obeys_try_from_spec() -> bool {
        false
    }

    open spec fn try_from_spec(value: Value) -> Result<Self, ConversionError> {
        arbitrary()
    }
}

impl<
    A0: super::TryFromValue,
    A1: super::TryFromValue,
    A2: super::TryFromValue,
    A3: super::TryFromValue,
    A4: super::TryFromValue,
    A5: super::TryFromValue,
    A6: super::TryFromValue,
    A7: super::TryFromValue,
    A8: super::TryFromValue,
    A9: super::TryFromValue,
    A10: super::TryFromValue,
    A11: super::TryFromValue,
    A12: super::TryFromValue,
    A13: super::TryFromValue,
    A14: super::TryFromValue,
    A15: super::TryFromValue,
> TryFrom<Value> for (
    A0,
    A1,
    A2,
    A3,
    A4,
    A5,
    A6,
    A7,
    A8,
    A9,
    A10,
    A11,
    A12,
    A13,
    A14,
    A15,
) {
    type Error = ConversionError;

    fn try_from(value: Value) -> (r: Result<Self, ConversionError>)
        ensures
            match r {
                Ok(x) => <Self as super::TryFromValue>::decoded(value@) == Ok::<
                    <Self as super::TryFromValue>::Model,
                    Failure,
                >(<Self as super::TryFromValue>::model(&x))
                    && <Self as super::TryFromValue>::made_from(&x, value@),
                Err(e) => <Self as super::TryFromValue>::decoded(value@) == Err::<
                    <Self as super::TryFromValue>::Model,
                    Failure,
                >(e.kind@),
            },
    {
        <Self as super::TryFromValue>::try_from(value)
    }
}

impl<
    A0: super::TryFromValue,
    A1: super::TryFromValue,
    A2: super::TryFromValue,
    A3: super::TryFromValue,
    A4: super::TryFromValue,
    A5: super::TryFromValue,
    A6: super::TryFromValue,
    A7: super::TryFromValue,
    A8: super::TryFromValue,
    A9: super::TryFromValue,
    A10: super::TryFromValue,
    A11: super::TryFromValue,
    A12: super::TryFromValue,
    A13: super::TryFromValue,
    A14: super::TryFromValue,
    A15: super::TryFromValue,
> TryFromSpecImpl<Value> for (
    A0,
    A1,
    A2,
    A3,
    A4,
    A5,
    A6,
    A7,
    A8,
    A9,
    A10,
    A11,
    A12,
    A13,
    A14,
    A15,
) {
    open spec fn obeys_try_from_spec() -> bool {
        false
    }

    open spec fn try_from_spec(value: Value) -> Result<Self, ConversionError> {
        arbitrary()
    }
}

} // verus!
