//! Conversions to the scalar types.
use super::TryFromValue;
use crate::error::{ConversionError, Failure};
use crate::proto::value::Inner;
use crate::proto::{Decimal, Inet, UdtValue, Uuid, Value, Varint};
use crate::wire::{lemma_udt_view, named_wires_of, Wire};
use crate::{Float32, Float64};
use vstd::prelude::*;

verus! {

impl TryFromValue for bool {
    type Model = bool;

    open spec fn model(&self) -> bool {
        *self
    }

    open spec fn decoded(w: Wire) -> Result<bool, Failure> {
        match w {
            Wire::Boolean(x) => Ok(x),
            _ => Err(Failure::Incompatible),
        }
    }

    fn try_from(value: Value) -> (r: Result<Self, ConversionError>) {
        match value.inner {
            Some(Inner::Boolean(x)) => Ok(x),
            other => Err(ConversionError::incompatible(other, "bool")),
        }
    }
}

impl TryFromValue for i64 {
    type Model = i64;

    open spec fn model(&self) -> i64 {
        *self
    }

    open spec fn decoded(w: Wire) -> Result<i64, Failure> {
        match w {
            Wire::Int(x) => Ok(x),
            _ => Err(Failure::Incompatible),
        }
    }

    fn try_from(value: Value) -> (r: Result<Self, ConversionError>) {
        match value.inner {
            Some(Inner::Int(x)) => Ok(x),
            other => Err(ConversionError::incompatible(other, "i64")),
        }
    }
}

/// An integer that fits; one that does not is out of range.
impl TryFromValue for i32 {
    type Model = i32;

    open spec fn model(&self) -> i32 {
        *self
    }

    open spec fn decoded(w: Wire) -> Result<i32, Failure> {
        match w {
            Wire::Int(x) => if i32::MIN <= x <= i32::MAX {
                Ok(x as i32)
            } else {
                Err(Failure::OutOfRange)
            },
            _ => Err(Failure::Incompatible),
        }
    }

    fn try_from(value: Value) -> (r: Result<Self, ConversionError>) {
        match value.inner {
            Some(Inner::Int(x)) => {
                if i32::MIN as i64 <= x && x <= i32::MAX as i64 {
                    Ok(x as i32)
                } else {
                    Err(ConversionError::out_of_range(x, "i32"))
                }
            },
            other => Err(ConversionError::incompatible(other, "i32")),
        }
    }
}

/// An integer that fits; one that does not is out of range.
impl TryFromValue for i16 {
    type Model = i16;

    open spec fn model(&self) -> i16 {
        *self
    }

    open spec fn decoded(w: Wire) -> Result<i16, Failure> {
        match w {
            Wire::Int(x) => if i16::MIN <= x <= i16::MAX {
                Ok(x as i16)
            } else {
                Err(Failure::OutOfRange)
            },
            _ => Err(Failure::Incompatible),
        }
    }

    fn try_from(value: Value) -> (r: Result<Self, ConversionError>) {
        match value.inner {
            Some(Inner::Int(x)) => {
                if i16::MIN as i64 <= x && x <= i16::MAX as i64 {
                    Ok(x as i16)
                } else {
                    Err(ConversionError::out_of_range(x, "i16"))
                }
            },
            other => Err(ConversionError::incompatible(other, "i16")),
        }
    }
}

/// An integer that fits; one that does not is out of range.
impl TryFromValue for i8 {
    type Model = i8;

    open spec fn model(&self) -> i8 {
        *self
    }

    open spec fn decoded(w: Wire) -> Result<i8, Failure> {
        match w {
            Wire::Int(x) => if i8::MIN <= x <= i8::MAX {
                Ok(x as i8)
            } else {
                Err(Failure::OutOfRange)
            },
            _ => Err(Failure::Incompatible),
        }
    }

    fn try_from(value: Value) -> (r: Result<Self, ConversionError>) {
        match value.inner {
            Some(Inner::Int(x)) => {
                if i8::MIN as i64 <= x && x <= i8::MAX as i64 {
                    Ok(x as i8)
                } else {
                    Err(ConversionError::out_of_range(x, "i8"))
                }
            },
            other => Err(ConversionError::incompatible(other, "i8")),
        }
    }
}

/// An integer that fits; one that does not is out of range.
impl TryFromValue for u16 {
    type Model = u16;

    open spec fn model(&self) -> u16 {
        *self
    }

    open spec fn decoded(w: Wire) -> Result<u16, Failure> {
        match w {
            Wire::Int(x) => if u16::MIN <= x <= u16::MAX {
                Ok(x as u16)
            } else {
                Err(Failure::OutOfRange)
            },
            _ => Err(Failure::Incompatible),
        }
    }

    fn try_from(value: Value) -> (r: Result<Self, ConversionError>) {
        match value.inner {
            Some(Inner::Int(x)) => {
                if u16::MIN as i64 <= x && x <= u16::MAX as i64 {
                    Ok(x as u16)
                } else {
                    Err(ConversionError::out_of_range(x, "u16"))
                }
            },
            other => Err(ConversionError::incompatible(other, "u16")),
        }
    }
}

impl TryFromValue for u32 {
    type Model = u32;

    open spec fn model(&self) -> u32 {
        *self
    }

    open spec fn decoded(w: Wire) -> Result<u32, Failure> {
        match w {
            Wire::Date(x) => Ok(x),
            _ => Err(Failure::Incompatible),
        }
    }

    fn try_from(value: Value) -> (r: Result<Self, ConversionError>) {
        match value.inner {
            Some(Inner::Date(x)) => Ok(x),
            other => Err(ConversionError::incompatible(other, "u32")),
        }
    }
}

impl TryFromValue for u64 {
    type Model = u64;

    open spec fn model(&self) -> u64 {
        *self
    }

    open spec fn decoded(w: Wire) -> Result<u64, Failure> {
        match w {
            Wire::Time(x) => Ok(x),
            _ => Err(Failure::Incompatible),
        }
    }

    fn try_from(value: Value) -> (r: Result<Self, ConversionError>) {
        match value.inner {
            Some(Inner::Time(x)) => Ok(x),
            other => Err(ConversionError::incompatible(other, "u64")),
        }
    }
}

impl TryFromValue for Float32 {
    type Model = u32;

    open spec fn model(&self) -> u32 {
        self.0
    }

    open spec fn decoded(w: Wire) -> Result<u32, Failure> {
        match w {
            Wire::Float(bits) => Ok(bits),
            _ => Err(Failure::Incompatible),
        }
    }

    fn try_from(value: Value) -> (r: Result<Self, ConversionError>) {
        match value.inner {
            Some(Inner::Float(x)) => Ok(x),
            other => Err(ConversionError::incompatible(other, "Float32")),
        }
    }
}

impl TryFromValue for Float64 {
    type Model = u64;

    open spec fn model(&self) -> u64 {
        self.0
    }

    open spec fn decoded(w: Wire) -> Result<u64, Failure> {
        match w {
            Wire::Double(bits) => Ok(bits),
            _ => Err(Failure::Incompatible),
        }
    }

    fn try_from(value: Value) -> (r: Result<Self, ConversionError>) {
        match value.inner {
            Some(Inner::Double(x)) => Ok(x),
            other => Err(ConversionError::incompatible(other, "Float64")),
        }
    }
}

impl TryFromValue for String {
    type Model = Seq<char>;

    open spec fn model(&self) -> Seq<char> {
        self@
    }

    open spec fn decoded(w: Wire) -> Result<Seq<char>, Failure> {
        match w {
            Wire::String(x) => Ok(x),
            _ => Err(Failure::Incompatible),
        }
    }

    fn try_from(value: Value) -> (r: Result<Self, ConversionError>) {
        match value.inner {
            Some(Inner::String(x)) => Ok(x),
            other => Err(ConversionError::incompatible(other, "String")),
        }
    }
}

impl TryFromValue for Vec<u8> {
    type Model = Seq<u8>;

    open spec fn model(&self) -> Seq<u8> {
        self@
    }

    open spec fn decoded(w: Wire) -> Result<Seq<u8>, Failure> {
        match w {
            Wire::Bytes(x) => Ok(x),
            _ => Err(Failure::Incompatible),
        }
    }

    fn try_from(value: Value) -> (r: Result<Self, ConversionError>) {
        match value.inner {
            Some(Inner::Bytes(x)) => Ok(x),
            other => Err(ConversionError::incompatible(other, "Vec<u8>")),
        }
    }
}

impl TryFromValue for Decimal {
    type Model = (u32, Seq<u8>);

    open spec fn model(&self) -> (u32, Seq<u8>) {
        (self.scale, self.value@)
    }

    open spec fn decoded(w: Wire) -> Result<(u32, Seq<u8>), Failure> {
        match w {
            Wire::Decimal { scale, unscaled } => Ok((scale, unscaled)),
            _ => Err(Failure::Incompatible),
        }
    }

    fn try_from(value: Value) -> (r: Result<Self, ConversionError>) {
        match value.inner {
            Some(Inner::Decimal(x)) => Ok(x),
            other => Err(ConversionError::incompatible(other, "Decimal")),
        }
    }
}

impl TryFromValue for Inet {
    type Model = Seq<u8>;

    open spec fn model(&self) -> Seq<u8> {
        self.value@
    }

    open spec fn decoded(w: Wire) -> Result<Seq<u8>, Failure> {
        match w {
            Wire::Inet(x) => Ok(x),
            _ => Err(Failure::Incompatible),
        }
    }

    fn try_from(value: Value) -> (r: Result<Self, ConversionError>) {
        match value.inner {
            Some(Inner::Inet(x)) => Ok(x),
            other => Err(ConversionError::incompatible(other, "Inet")),
        }
    }
}

impl TryFromValue for UdtValue {
    type Model = Seq<(Seq<char>, Wire)>;

    open spec fn model(&self) -> Seq<(Seq<char>, Wire)> {
        named_wires_of(self.fields@)
    }

    open spec fn decoded(w: Wire) -> Result<Seq<(Seq<char>, Wire)>, Failure> {
        match w {
            Wire::Udt(fields) => Ok(fields),
            _ => Err(Failure::Incompatible),
        }
    }

    fn try_from(value: Value) -> (r: Result<Self, ConversionError>) {
        proof {
            if value.inner matches Some(Inner::Udt(_)) {
                lemma_udt_view(value);
            }
        }
        match value.inner {
            Some(Inner::Udt(x)) => Ok(x),
            other => Err(ConversionError::incompatible(other, "UdtValue")),
        }
    }
}

/// The bytes as they are, sixteen or not.
impl TryFromValue for Uuid {
    type Model = Seq<u8>;

    open spec fn model(&self) -> Seq<u8> {
        self.value@
    }

    open spec fn decoded(w: Wire) -> Result<Seq<u8>, Failure> {
        match w {
            Wire::Uuid(x) => Ok(x),
            _ => Err(Failure::Incompatible),
        }
    }

    fn try_from(value: Value) -> (r: Result<Self, ConversionError>) {
        match value.inner {
            Some(Inner::Uuid(x)) => Ok(x),
            other => Err(ConversionError::incompatible(other, "Uuid")),
        }
    }
}

impl TryFromValue for Varint {
    type Model = Seq<u8>;

    open spec fn model(&self) -> Seq<u8> {
        self.value@
    }

    open spec fn decoded(w: Wire) -> Result<Seq<u8>, Failure> {
        match w {
            Wire::Varint(x) => Ok(x),
            _ => Err(Failure::Incompatible),
        }
    }

    fn try_from(value: Value) -> (r: Result<Self, ConversionError>) {
        match value.inner {
            Some(Inner::Varint(x)) => Ok(x),
            other => Err(ConversionError::incompatible(other, "Varint")),
        }
    }
}

/// The sixteen bytes of a UUID; any other number of bytes is out of range.
impl TryFromValue for [u8; 16] {
    type Model = Seq<u8>;

    open spec fn model(&self) -> Seq<u8> {
        self@
    }

    open spec fn decoded(w: Wire) -> Result<Seq<u8>, Failure> {
        match w {
            Wire::Uuid(bytes) => if bytes.len() == 16 {
                Ok(bytes)
            } else {
                Err(Failure::OutOfRange)
            },
            _ => Err(Failure::Incompatible),
        }
    }

    fn try_from(value: Value) -> (r: Result<Self, ConversionError>) {
        match value.inner {
            Some(Inner::Uuid(x)) => {
                if x.value.len() != 16 {
                    return Err(ConversionError::out_of_range(x, "[u8; 16]"));
                }
                let mut bytes: [u8; 16] = [0u8; 16];
                let mut i: usize = 0;
                while i < 16
                    invariant
                        i <= 16,
                        x.value@.len() == 16,
                        forall|j: int| 0 <= j < i ==> bytes@[j] == x.value@[j],
                    decreases 16 - i,
                {
                    bytes[i] = x.value[i];
                    i += 1;
                }
                assert(bytes@ =~= x.value@);
                Ok(bytes)
            },
            other => Err(ConversionError::incompatible(other, "[u8; 16]")),
        }
    }
}

/// A value converts to itself.
///
/// This lets a collection of values of different types be received as a
/// `Vec<Value>`.
impl TryFromValue for Value {
    type Model = Wire;

    open spec fn model(&self) -> Wire {
        self@
    }

    open spec fn decoded(w: Wire) -> Result<Wire, Failure> {
        Ok(w)
    }

    fn try_from(value: Value) -> (r: Result<Self, ConversionError>) {
        Ok(value)
    }
}

} // verus!
