//! Data mapping for the Stargate gRPC protocol.
//!
//! The protocol carries every bound parameter and every result column as a
//! [`Value`], a small tagged union. This crate converts between `Value` and
//! ordinary Rust types in both directions, assembles the parameters of queries
//! and batches, and maps result rows to records. It sends and receives
//! nothing: it works on messages in memory, which a transport encodes and
//! carries.
//!
//! Every function is verified against a mathematical model of the values,
//! [`wire::Wire`]. [`laws`] states what holds of all conversions: a value that
//! goes to the wire and back is the value it was.
//!
//! # Values
//!
//! ```ignore
//! let int = Value::bigint(1);
//! let string = Value::string("stargate");
//! let list = Value::list(vec![Value::bigint(1), Value::string("two")]);
//! let map = Value::map(vec![("key1", 1), ("key2", 2)]);
//! let typed = Value::of_type(types::List(types::Date), vec![18740, 18747]);
//!
//! let (a, b): (i64, String) = Value::from((1, "October")).try_into()?;
//! ```
//!
//! See [`into_value`] and [`from_value`] for the conversions.
//!
//! # Queries
//!
//! ```ignore
//! let query = Query::builder()
//!     .keyspace("test")
//!     .consistency(Consistency::LocalQuorum)
//!     .query("SELECT * FROM users WHERE id = :id")
//!     .bind_name("id", 1000)
//!     .build();
//! ```
//!
//! See [`query`] for queries and batches.
//!
//! # Results
//!
//! ```ignore
//! for row in result_set.rows {
//!     let (login, emails): (String, Vec<String>) = row.try_into()?;
//! }
//! ```
//!
//! See [`result`] for rows and [`record`] for rows as structs.
//!
//! # Numbers
//!
//! Floating point numbers travel as their IEEE 754 bit patterns, in
//! [`Float32`] and [`Float64`]: the library moves them and never computes with
//! them. A time is a `u64` of nanoseconds since midnight, a date a `u32` of
//! days, a timestamp an `i64` of milliseconds since the Unix epoch; see
//! [`time`].
use vstd::prelude::*;

pub mod error;
pub mod from_value;
pub mod into_value;
pub mod laws;
pub mod proto;
pub mod query;
pub mod record;
pub mod result;
pub mod time;
pub mod types;
pub mod udt;
pub mod wire;

pub use from_value::TryFromValue;
pub use into_value::{DefaultGrpcType, IntoValue};
pub use proto::{Batch, Consistency, Query, ResultSet, Row, Value};
pub use query::{BatchBuilder, QueryBuilder};

verus! {

/// Holds a key and a value pair; used in map representation.
///
/// Maps are passed as collections where items 0, 2, 4, ... are keys and items
/// 1, 3, 5, ... are values: the pairs are not nested collections. To receive a
/// map, convert the value to `Vec<KeyValue<K, V>>`, not to `Vec<(K, V)>`.
#[derive(Debug, Clone, PartialEq, Eq)]
pub struct KeyValue<K, V>(pub K, pub V);

impl<K, V> KeyValue<K, V> {
    pub fn into_tuple(self) -> (pair: (K, V))
        ensures
            pair == (self.0, self.1),
    {
        (self.0, self.1)
    }
}

/// A 32-bit IEEE 754 number, held as its bit pattern.
#[derive(Debug, Clone, Copy, PartialEq, Eq, Hash)]
pub struct Float32(pub u32);

impl Float32 {
    pub fn from_bits(bits: u32) -> (x: Float32)
        ensures
            x.0 == bits,
    {
        Float32(bits)
    }

    pub fn to_bits(self) -> (bits: u32)
        ensures
            bits == self.0,
    {
        self.0
    }
}

/// A 64-bit IEEE 754 number, held as its bit pattern.
#[derive(Debug, Clone, Copy, PartialEq, Eq, Hash)]
pub struct Float64(pub u64);

impl Float64 {
    pub fn from_bits(bits: u64) -> (x: Float64)
        ensures
            x.0 == bits,
    {
        Float64(bits)
    }

    pub fn to_bits(self) -> (bits: u64)
        ensures
            bits == self.0,
    {
        self.0
    }
}

} // verus!
