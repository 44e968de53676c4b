//! Conversions of the scalar types.
use super::IntoValue;
use crate::proto::value::Inner;
use crate::proto::{Decimal, Inet, UdtValue, Uuid, Value, Varint};
use crate::types;
use crate::wire::{named_wires_of, Wire};
use crate::{Float32, Float64};
use vstd::prelude::*;

verus! {

impl IntoValue<types::Boolean> for bool {
    open spec fn encoded(&self) -> Wire {
        Wire::Boolean(*self)
    }

    fn into_value(self) -> (v: Value) {
        Value::raw_boolean(self)
    }
}

impl IntoValue<types::Int> for i64 {
    open spec fn encoded(&self) -> Wire {
        Wire::Int(*self)
    }

    fn into_value(self) -> (v: Value) {
        Value::raw_int(self)
    }
}

impl IntoValue<types::Int> for i32 {
    open spec fn encoded(&self) -> Wire {
        Wire::Int(*self as i64)
    }

    fn into_value(self) -> (v: Value) {
        Value::raw_int(self as i64)
    }
}

impl IntoValue<types::Int> for i16 {
    open spec fn encoded(&self) -> Wire {
        Wire::Int(*self as i64)
    }

    fn into_value(self) -> (v: Value) {
        Value::raw_int(self as i64)
    }
}

impl IntoValue<types::Int> for i8 {
    open spec fn encoded(&self) -> Wire {
        Wire::Int(*self as i64)
    }

    fn into_value(self) -> (v: Value) {
        Value::raw_int(self as i64)
    }
}

impl IntoValue<types::Int> for u32 {
    open spec fn encoded(&self) -> Wire {
        Wire::Int(*self as i64)
    }

    fn into_value(self) -> (v: Value) {
        Value::raw_int(self as i64)
    }
}

impl IntoValue<types::Int> for u16 {
    open spec fn encoded(&self) -> Wire {
        Wire::Int(*self as i64)
    }

    fn into_value(self) -> (v: Value) {
        Value::raw_int(self as i64)
    }
}

impl IntoValue<types::Int> for u8 {
    open spec fn encoded(&self) -> Wire {
        Wire::Int(*self as i64)
    }

    fn into_value(self) -> (v: Value) {
        Value::raw_int(self as i64)
    }
}

impl IntoValue<types::Bigint> for i64 {
    open spec fn encoded(&self) -> Wire {
        Wire::Int(*self)
    }

    fn into_value(self) -> (v: Value) {
        Value::raw_int(self)
    }
}

impl IntoValue<types::Bigint> for i32 {
    open spec fn encoded(&self) -> Wire {
        Wire::Int(*self as i64)
    }

    fn into_value(self) -> (v: Value) {
        Value::raw_int(self as i64)
    }
}

impl IntoValue<types::Bigint> for i16 {
    open spec fn encoded(&self) -> Wire {
        Wire::Int(*self as i64)
    }

    fn into_value(self) -> (v: Value) {
        Value::raw_int(self as i64)
    }
}

impl IntoValue<types::Bigint> for i8 {
    open spec fn encoded(&self) -> Wire {
        Wire::Int(*self as i64)
    }

    fn into_value(self) -> (v: Value) {
        Value::raw_int(self as i64)
    }
}

impl IntoValue<types::Bigint> for u32 {
    open spec fn encoded(&self) -> Wire {
        Wire::Int(*self as i64)
    }

    fn into_value(self) -> (v: Value) {
        Value::raw_int(self as i64)
    }
}

impl IntoValue<types::Bigint> for u16 {
    open spec fn encoded(&self) -> Wire {
        Wire::Int(*self as i64)
    }

    fn into_value(self) -> (v: Value) {
        Value::raw_int(self as i64)
    }
}

impl IntoValue<types::Bigint> for u8 {
    open spec fn encoded(&self) -> Wire {
        Wire::Int(*self as i64)
    }

    fn into_value(self) -> (v: Value) {
        Value::raw_int(self as i64)
    }
}

impl IntoValue<types::Smallint> for i16 {
    open spec fn encoded(&self) -> Wire {
        Wire::Int(*self as i64)
    }

    fn into_value(self) -> (v: Value) {
        Value::raw_int(self as i64)
    }
}

impl IntoValue<types::Smallint> for i8 {
    open spec fn encoded(&self) -> Wire {
        Wire::Int(*self as i64)
    }

    fn into_value(self) -> (v: Value) {
        Value::raw_int(self as i64)
    }
}

impl IntoValue<types::Smallint> for u8 {
    open spec fn encoded(&self) -> Wire {
        Wire::Int(*self as i64)
    }

    fn into_value(self) -> (v: Value) {
        Value::raw_int(self as i64)
    }
}

impl IntoValue<types::Tinyint> for i8 {
    open spec fn encoded(&self) -> Wire {
        Wire::Int(*self as i64)
    }

    fn into_value(self) -> (v: Value) {
        Value::raw_int(self as i64)
    }
}

impl IntoValue<types::Counter> for i64 {
    open spec fn encoded(&self) -> Wire {
        Wire::Int(*self)
    }

    fn into_value(self) -> (v: Value) {
        Value::raw_int(self)
    }
}

impl IntoValue<types::Timestamp> for i64 {
    open spec fn encoded(&self) -> Wire {
        Wire::Int(*self)
    }

    fn into_value(self) -> (v: Value) {
        Value::raw_int(self)
    }
}

impl IntoValue<types::Date> for u32 {
    open spec fn encoded(&self) -> Wire {
        Wire::Date(*self)
    }

    fn into_value(self) -> (v: Value) {
        Value::raw_date(self)
    }
}

impl IntoValue<types::Time> for u64 {
    open spec fn encoded(&self) -> Wire {
        Wire::Time(*self)
    }

    fn into_value(self) -> (v: Value) {
        Value::raw_time(self)
    }
}

impl IntoValue<types::Float> for Float32 {
    open spec fn encoded(&self) -> Wire {
        Wire::Float(self.0)
    }

    fn into_value(self) -> (v: Value) {
        Value::raw_float(self)
    }
}

impl IntoValue<types::Double> for Float64 {
    open spec fn encoded(&self) -> Wire {
        Wire::Double(self.0)
    }

    fn into_value(self) -> (v: Value) {
        Value::raw_double(self)
    }
}

impl IntoValue<types::Text> for String {
    open spec fn encoded(&self) -> Wire {
        Wire::String(self@)
    }

    fn into_value(self) -> (v: Value) {
        Value::raw_string(self)
    }
}

impl<'a> IntoValue<types::Text> for &'a str {
    open spec fn encoded(&self) -> Wire {
        Wire::String(self@)
    }

    fn into_value(self) -> (v: Value) {
        Value::raw_string(self.to_owned())
    }
}

impl IntoValue<types::Varchar> for String {
    open spec fn encoded(&self) -> Wire {
        Wire::String(self@)
    }

    fn into_value(self) -> (v: Value) {
        Value::raw_string(self)
    }
}

impl<'a> IntoValue<types::Varchar> for &'a str {
    open spec fn encoded(&self) -> Wire {
        Wire::String(self@)
    }

    fn into_value(self) -> (v: Value) {
        Value::raw_string(self.to_owned())
    }
}

impl IntoValue<types::Blob> for Vec<u8> {
    open spec fn encoded(&self) -> Wire {
        Wire::Bytes(self@)
    }

    fn into_value(self) -> (v: Value) {
        Value::raw_bytes(self)
    }
}

impl IntoValue<types::Varint> for Vec<u8> {
    open spec fn encoded(&self) -> Wire {
        Wire::Varint(self@)
    }

    fn into_value(self) -> (v: Value) {
        Value::raw_varint(self)
    }
}

impl<'a> IntoValue<types::Inet> for &'a [u8; 4] {
    open spec fn encoded(&self) -> Wire {
        Wire::Inet(self@)
    }

    fn into_value(self) -> (v: Value) {
        Value::raw_inet(super::bytes_of(self))
    }
}

impl<'a> IntoValue<types::Inet> for &'a [u8; 16] {
    open spec fn encoded(&self) -> Wire {
        Wire::Inet(self@)
    }

    fn into_value(self) -> (v: Value) {
        Value::raw_inet(super::bytes_of(self))
    }
}

impl<'a> IntoValue<types::Uuid> for &'a [u8; 16] {
    open spec fn encoded(&self) -> Wire {
        Wire::Uuid(self@)
    }

    fn into_value(self) -> (v: Value) {
        Value::raw_uuid(self)
    }
}

impl IntoValue<types::Decimal> for Decimal {
    open spec fn encoded(&self) -> Wire {
        Wire::Decimal { scale: self.scale, unscaled: self.value@ }
    }

    fn into_value(self) -> (v: Value) {
        Value::raw_decimal(self.scale, self.value)
    }
}

impl IntoValue<types::Inet> for Inet {
    open spec fn encoded(&self) -> Wire {
        Wire::Inet(self.value@)
    }

    fn into_value(self) -> (v: Value) {
        Value::raw_inet(self.value)
    }
}

impl IntoValue<types::Udt> for UdtValue {
    open spec fn encoded(&self) -> Wire {
        Wire::Udt(named_wires_of(self.fields@))
    }

    fn into_value(self) -> (v: Value) {
        Value::raw_udt(self.fields)
    }
}

/// The bytes are taken as they are, sixteen or not.
impl IntoValue<types::Uuid> for Uuid {
    open spec fn encoded(&self) -> Wire {
        Wire::Uuid(self.value@)
    }

    fn into_value(self) -> (v: Value) {
        Value { inner: Some(Inner::Uuid(self)) }
    }
}

impl IntoValue<types::Varint> for Varint {
    open spec fn encoded(&self) -> Wire {
        Wire::Varint(self.value@)
    }

    fn into_value(self) -> (v: Value) {
        Value::raw_varint(self.value)
    }
}

} // verus!
