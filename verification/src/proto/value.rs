//! The variants of a [`Value`](super::Value).
use super::{Collection, Decimal, Inet, UdtValue, Uuid, Varint};
use crate::{Float32, Float64};
use vstd::prelude::*;

verus! {

/// The payload of the `null` variant.
#[derive(Debug, Clone, Copy, PartialEq, Eq)]
pub struct Null {}

/// The payload of the `unset` variant.
#[derive(Debug, Clone, Copy, PartialEq, Eq)]
pub struct Unset {}

/// What a value holds.
#[derive(Debug, Clone, PartialEq)]
pub enum Inner {
    /// No value.
    Null(Null),
    /// Leave the stored value unchanged. Meaningful only as a bound parameter.
    Unset(Unset),
    /// CQL types: `tinyint`, `smallint`, `int`, `bigint`, `counter`, `timestamp`.
    Int(i64),
    /// CQL types: `float`.
    Float(Float32),
    /// CQL types: `double`.
    Double(Float64),
    /// CQL types: `boolean`.
    Boolean(bool),
    /// CQL types: `ascii`, `varchar`, `text`.
    String(String),
    /// CQL types: `blob`, `custom`.
    Bytes(Vec<u8>),
    /// CQL types: `inet`.
    Inet(Inet),
    /// CQL types: `uuid`, `timeuuid`.
    Uuid(Uuid),
    /// CQL types: `date`. Days, with a fixed epoch.
    Date(u32),
    /// CQL types: `time`. Nanoseconds since midnight.
    Time(u64),
    /// CQL types: `list`, `set`, `map`, `tuple`.
    Collection(Collection),
    /// CQL types: user defined types.
    Udt(UdtValue),
    /// CQL types: `varint`.
    Varint(Varint),
    /// CQL types: `decimal`.
    Decimal(Decimal),
}

} // verus!
