//! Structs for describing the types of gRPC data values.
//!
//! These structs hold no data; they only name types. They are passed to
//! [`Value::of_type`](crate::Value::of_type),
//! [`Value::list_of`](crate::Value::list_of) and
//! [`Value::map_of`](crate::Value::map_of) to choose the target of a
//! conversion.
use vstd::prelude::*;

verus! {

/// Implemented by all types except [`Any`].
pub trait ConcreteType {

}

pub struct Bigint;

impl ConcreteType for Bigint {

}

pub struct Boolean;

impl ConcreteType for Boolean {

}

pub struct Blob;

impl ConcreteType for Blob {

}

pub struct Counter;

impl ConcreteType for Counter {

}

pub struct Date;

impl ConcreteType for Date {

}

pub struct Decimal;

impl ConcreteType for Decimal {

}

pub struct Double;

impl ConcreteType for Double {

}

pub struct Float;

impl ConcreteType for Float {

}

pub struct Inet;

impl ConcreteType for Inet {

}

pub struct Int;

impl ConcreteType for Int {

}

pub struct Smallint;

impl ConcreteType for Smallint {

}

pub struct Text;

impl ConcreteType for Text {

}

pub struct Time;

impl ConcreteType for Time {

}

pub struct Timestamp;

impl ConcreteType for Timestamp {

}

pub struct Tinyint;

impl ConcreteType for Tinyint {

}

pub struct Udt;

impl ConcreteType for Udt {

}

pub struct Uuid;

impl ConcreteType for Uuid {

}

pub struct Varchar;

impl ConcreteType for Varchar {

}

pub struct Varint;

impl ConcreteType for Varint {

}

pub struct List<T>(pub T);

impl<T> ConcreteType for List<T> {

}

pub struct SetOf<T>(pub T);

impl<T> ConcreteType for SetOf<T> {

}

pub struct MapOf<K, V>(pub K, pub V);

impl<K, V> ConcreteType for MapOf<K, V> {

}

/// Marks that a conversion should produce a value of the default type of its
/// source. It also lets a `Value` that is already part of the structure to be
/// converted pass through unchanged.
pub struct Any;

} // verus!
