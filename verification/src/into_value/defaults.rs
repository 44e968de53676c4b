//! The default target of each type.
use super::DefaultGrpcType;
use crate::proto::{Decimal, Inet, UdtValue, Uuid, Varint};
use crate::types;
use crate::{Float32, Float64, KeyValue};
use vstd::prelude::*;

verus! {

impl DefaultGrpcType for bool {
    type C = types::Boolean;
}

impl DefaultGrpcType for i8 {
    type C = types::Int;
}

impl DefaultGrpcType for i16 {
    type C = types::Int;
}

impl DefaultGrpcType for i32 {
    type C = types::Int;
}

impl DefaultGrpcType for i64 {
    type C = types::Int;
}

impl DefaultGrpcType for u16 {
    type C = types::Int;
}

impl DefaultGrpcType for u32 {
    type C = types::Int;
}

impl DefaultGrpcType for Float32 {
    type C = types::Float;
}

impl DefaultGrpcType for Float64 {
    type C = types::Double;
}

impl DefaultGrpcType for String {
    type C = types::Text;
}

impl DefaultGrpcType for Vec<u8> {
    type C = types::Blob;
}

impl DefaultGrpcType for Decimal {
    type C = types::Decimal;
}

impl DefaultGrpcType for Inet {
    type C = types::Inet;
}

impl DefaultGrpcType for UdtValue {
    type C = types::Udt;
}

impl DefaultGrpcType for Uuid {
    type C = types::Uuid;
}

impl DefaultGrpcType for Varint {
    type C = types::Varint;
}

impl<'a> DefaultGrpcType for &'a str {
    type C = types::Text;
}

impl<T: DefaultGrpcType> DefaultGrpcType for Option<T> {
    type C = <T as DefaultGrpcType>::C;
}

impl<T: DefaultGrpcType> DefaultGrpcType for Vec<T> {
    type C = types::List<<T as DefaultGrpcType>::C>;
}

impl<K: DefaultGrpcType, V: DefaultGrpcType> DefaultGrpcType for Vec<KeyValue<K, V>> {
    type C = types::MapOf<<K as DefaultGrpcType>::C, <V as DefaultGrpcType>::C>;
}


impl<R0: DefaultGrpcType, R1: DefaultGrpcType> DefaultGrpcType for (R0, R1) {
    type C = (<R0 as DefaultGrpcType>::C, <R1 as DefaultGrpcType>::C);
}

impl<
    R0: DefaultGrpcType,
    R1: DefaultGrpcType,
    R2: DefaultGrpcType,
> DefaultGrpcType for (R0, R1, R2) {
    type C = (<R0 as DefaultGrpcType>::C, <R1 as DefaultGrpcType>::C, <R2 as DefaultGrpcType>::C);
}

impl<
    R0: DefaultGrpcType,
    R1: DefaultGrpcType,
    R2: DefaultGrpcType,
    R3: DefaultGrpcType,
> DefaultGrpcType for (R0, R1, R2, R3) {
    type C = (
        <R0 as DefaultGrpcType>::C,
        <R1 as DefaultGrpcType>::C,
        <R2 as DefaultGrpcType>::C,
        <R3 as DefaultGrpcType>::C,
    );
}

impl<
    R0: DefaultGrpcType,
    R1: DefaultGrpcType,
    R2: DefaultGrpcType,
    R3: DefaultGrpcType,
    R4: DefaultGrpcType,
> DefaultGrpcType for (R0, R1, R2, R3, R4) {
    type C = (
        <R0 as DefaultGrpcType>::C,
        <R1 as DefaultGrpcType>::C,
        <R2 as DefaultGrpcType>::C,
        <R3 as DefaultGrpcType>::C,
        <R4 as DefaultGrpcType>::C,
    );
}

impl<
    R0: DefaultGrpcType,
    R1: DefaultGrpcType,
    R2: DefaultGrpcType,
    R3: DefaultGrpcType,
    R4: DefaultGrpcType,
    R5: DefaultGrpcType,
> DefaultGrpcType for (R0, R1, R2, R3, R4, R5) {
    type C = (
        <R0 as DefaultGrpcType>::C,
        <R1 as DefaultGrpcType>::C,
        <R2 as DefaultGrpcType>::C,
        <R3 as DefaultGrpcType>::C,
        <R4 as DefaultGrpcType>::C,
        <R5 as DefaultGrpcType>::C,
    );
}

impl<
    R0: DefaultGrpcType,
    R1: DefaultGrpcType,
    R2: DefaultGrpcType,
    R3: DefaultGrpcType,
    R4: DefaultGrpcType,
    R5: DefaultGrpcType,
    R6: DefaultGrpcType,
> DefaultGrpcType for (R0, R1, R2, R3, R4, R5, R6) {
    type C = (
        <R0 as DefaultGrpcType>::C,
        <R1 as DefaultGrpcType>::C,
        <R2 as DefaultGrpcType>::C,
        <R3 as DefaultGrpcType>::C,
        <R4 as DefaultGrpcType>::C,
        <R5 as DefaultGrpcType>::C,
        <R6 as DefaultGrpcType>::C,
    );
}

impl<
    R0: DefaultGrpcType,
    R1: DefaultGrpcType,
    R2: DefaultGrpcType,
    R3: DefaultGrpcType,
    R4: DefaultGrpcType,
    R5: DefaultGrpcType,
    R6: DefaultGrpcType,
    R7: DefaultGrpcType,
> DefaultGrpcType for (R0, R1, R2, R3, R4, R5, R6, R7) {
    type C = (
        <R0 as DefaultGrpcType>::C,
        <R1 as DefaultGrpcType>::C,
        <R2 as DefaultGrpcType>::C,
        <R3 as DefaultGrpcType>::C,
        <R4 as DefaultGrpcType>::C,
        <R5 as DefaultGrpcType>::C,
        <R6 as DefaultGrpcType>::C,
        <R7 as DefaultGrpcType>::C,
    );
}

impl<
    R0: DefaultGrpcType,
    R1: DefaultGrpcType,
    R2: DefaultGrpcType,
    R3: DefaultGrpcType,
    R4: DefaultGrpcType,
    R5: DefaultGrpcType,
    R6: DefaultGrpcType,
    R7: DefaultGrpcType,
    R8: DefaultGrpcType,
> DefaultGrpcType for (R0, R1, R2, R3, R4, R5, R6, R7, R8) {
    type C = (
        <R0 as DefaultGrpcType>::C,
        <R1 as DefaultGrpcType>::C,
        <R2 as DefaultGrpcType>::C,
        <R3 as DefaultGrpcType>::C,
        <R4 as DefaultGrpcType>::C,
        <R5 as DefaultGrpcType>::C,
        <R6 as DefaultGrpcType>::C,
        <R7 as DefaultGrpcType>::C,
        <R8 as DefaultGrpcType>::C,
    );
}

impl<
    R0: DefaultGrpcType,
    R1: DefaultGrpcType,
    R2: DefaultGrpcType,
    R3: DefaultGrpcType,
    R4: DefaultGrpcType,
    R5: DefaultGrpcType,
    R6: DefaultGrpcType,
    R7: DefaultGrpcType,
    R8: DefaultGrpcType,
    R9: DefaultGrpcType,
> DefaultGrpcType for (R0, R1, R2, R3, R4, R5, R6, R7, R8, R9) {
    type C = (
        <R0 as DefaultGrpcType>::C,
        <R1 as DefaultGrpcType>::C,
        <R2 as DefaultGrpcType>::C,
        <R3 as DefaultGrpcType>::C,
        <R4 as DefaultGrpcType>::C,
        <R5 as DefaultGrpcType>::C,
        <R6 as DefaultGrpcType>::C,
        <R7 as DefaultGrpcType>::C,
        <R8 as DefaultGrpcType>::C,
        <R9 as DefaultGrpcType>::C,
    );
}

impl<
    R0: DefaultGrpcType,
    R1: DefaultGrpcType,
    R2: DefaultGrpcType,
    R3: DefaultGrpcType,
    R4: DefaultGrpcType,
    R5: DefaultGrpcType,
    R6: DefaultGrpcType,
    R7: DefaultGrpcType,
    R8: DefaultGrpcType,
    R9: DefaultGrpcType,
    R10: DefaultGrpcType,
> DefaultGrpcType for (R0, R1, R2, R3, R4, R5, R6, R7, R8, R9, R10) {
    type C = (
        <R0 as DefaultGrpcType>::C,
        <R1 as DefaultGrpcType>::C,
        <R2 as DefaultGrpcType>::C,
        <R3 as DefaultGrpcType>::C,
        <R4 as DefaultGrpcType>::C,
        <R5 as DefaultGrpcType>::C,
        <R6 as DefaultGrpcType>::C,
        <R7 as DefaultGrpcType>::C,
        <R8 as DefaultGrpcType>::C,
        <R9 as DefaultGrpcType>::C,
        <R10 as DefaultGrpcType>::C,
    );
}

impl<
    R0: DefaultGrpcType,
    R1: DefaultGrpcType,
    R2: DefaultGrpcType,
    R3: DefaultGrpcType,
    R4: DefaultGrpcType,
    R5: DefaultGrpcType,
    R6: DefaultGrpcType,
    R7: DefaultGrpcType,
    R8: DefaultGrpcType,
    R9: DefaultGrpcType,
    R10: DefaultGrpcType,
    R11: DefaultGrpcType,
> DefaultGrpcType for (R0, R1, R2, R3, R4, R5, R6, R7, R8, R9, R10, R11) {
    type C = (
        <R0 as DefaultGrpcType>::C,
        <R1 as DefaultGrpcType>::C,
        <R2 as DefaultGrpcType>::C,
        <R3 as DefaultGrpcType>::C,
        <R4 as DefaultGrpcType>::C,
        <R5 as DefaultGrpcType>::C,
        <R6 as DefaultGrpcType>::C,
        <R7 as DefaultGrpcType>::C,
        <R8 as DefaultGrpcType>::C,
        <R9 as DefaultGrpcType>::C,
        <R10 as DefaultGrpcType>::C,
        <R11 as DefaultGrpcType>::C,
    );
}

impl<
    R0: DefaultGrpcType,
    R1: DefaultGrpcType,
    R2: DefaultGrpcType,
    R3: DefaultGrpcType,
    R4: DefaultGrpcType,
    R5: DefaultGrpcType,
    R6: DefaultGrpcType,
    R7: DefaultGrpcType,
    R8: DefaultGrpcType,
    R9: DefaultGrpcType,
    R10: DefaultGrpcType,
    R11: DefaultGrpcType,
    R12: DefaultGrpcType,
> DefaultGrpcType for (R0, R1, R2, R3, R4, R5, R6, R7, R8, R9, R10, R11, R12) {
    type C = (
        <R0 as DefaultGrpcType>::C,
        <R1 as DefaultGrpcType>::C,
        <R2 as DefaultGrpcType>::C,
        <R3 as DefaultGrpcType>::C,
        <R4 as DefaultGrpcType>::C,
        <R5 as DefaultGrpcType>::C,
        <R6 as DefaultGrpcType>::C,
        <R7 as DefaultGrpcType>::C,
        <R8 as DefaultGrpcType>::C,
        <R9 as DefaultGrpcType>::C,
        <R10 as DefaultGrpcType>::C,
        <R11 as DefaultGrpcType>::C,
        <R12 as DefaultGrpcType>::C,
    );
}

impl<
    R0: DefaultGrpcType,
    R1: DefaultGrpcType,
    R2: DefaultGrpcType,
    R3: DefaultGrpcType,
    R4: DefaultGrpcType,
    R5: DefaultGrpcType,
    R6: DefaultGrpcType,
    R7: DefaultGrpcType,
    R8: DefaultGrpcType,
    R9: DefaultGrpcType,
    R10: DefaultGrpcType,
    R11: DefaultGrpcType,
    R12: DefaultGrpcType,
    R13: DefaultGrpcType,
> DefaultGrpcType for (R0, R1, R2, R3, R4, R5, R6, R7, R8, R9, R10, R11, R12, R13) {
    type C = (
        <R0 as DefaultGrpcType>::C,
        <R1 as DefaultGrpcType>::C,
        <R2 as DefaultGrpcType>::C,
        <R3 as DefaultGrpcType>::C,
        <R4 as DefaultGrpcType>::C,
        <R5 as DefaultGrpcType>::C,
        <R6 as DefaultGrpcType>::C,
        <R7 as DefaultGrpcType>::C,
        <R8 as DefaultGrpcType>::C,
        <R9 as DefaultGrpcType>::C,
        <R10 as DefaultGrpcType>::C,
        <R11 as DefaultGrpcType>::C,
        <R12 as DefaultGrpcType>::C,
        <R13 as DefaultGrpcType>::C,
    );
}

impl<
    R0: DefaultGrpcType,
    R1: DefaultGrpcType,
    R2: DefaultGrpcType,
    R3: DefaultGrpcType,
    R4: DefaultGrpcType,
    R5: DefaultGrpcType,
    R6: DefaultGrpcType,
    R7: DefaultGrpcType,
    R8: DefaultGrpcType,
    R9: DefaultGrpcType,
    R10: DefaultGrpcType,
    R11: DefaultGrpcType,
    R12: DefaultGrpcType,
    R13: DefaultGrpcType,
    R14: DefaultGrpcType,
> DefaultGrpcType for (R0, R1, R2, R3, R4, R5, R6, R7, R8, R9, R10, R11, R12, R13, R14) {
    type C = (
        <R0 as DefaultGrpcType>::C,
        <R1 as DefaultGrpcType>::C,
        <R2 as DefaultGrpcType>::C,
        <R3 as DefaultGrpcType>::C,
        <R4 as DefaultGrpcType>::C,
        <R5 as DefaultGrpcType>::C,
        <R6 as DefaultGrpcType>::C,
        <R7 as DefaultGrpcType>::C,
        <R8 as DefaultGrpcType>::C,
        <R9 as DefaultGrpcType>::C,
        <R10 as DefaultGrpcType>::C,
        <R11 as DefaultGrpcType>::C,
        <R12 as DefaultGrpcType>::C,
        <R13 as DefaultGrpcType>::C,
        <R14 as DefaultGrpcType>::C,
    );
}

impl<
    R0: DefaultGrpcType,
    R1: DefaultGrpcType,
    R2: DefaultGrpcType,
    R3: DefaultGrpcType,
    R4: DefaultGrpcType,
    R5: DefaultGrpcType,
    R6: DefaultGrpcType,
    R7: DefaultGrpcType,
    R8: DefaultGrpcType,
    R9: DefaultGrpcType,
    R10: DefaultGrpcType,
    R11: DefaultGrpcType,
    R12: DefaultGrpcType,
    R13: DefaultGrpcType,
    R14: DefaultGrpcType,
    R15: DefaultGrpcType,
> DefaultGrpcType for (R0, R1, R2, R3, R4, R5, R6, R7, R8, R9, R10, R11, R12, R13, R14, R15) {
    type C = (
        <R0 as DefaultGrpcType>::C,
        <R1 as DefaultGrpcType>::C,
        <R2 as DefaultGrpcType>::C,
        <R3 as DefaultGrpcType>::C,
        <R4 as DefaultGrpcType>::C,
        <R5 as DefaultGrpcType>::C,
        <R6 as DefaultGrpcType>::C,
        <R7 as DefaultGrpcType>::C,
        <R8 as DefaultGrpcType>::C,
        <R9 as DefaultGrpcType>::C,
        <R10 as DefaultGrpcType>::C,
        <R11 as DefaultGrpcType>::C,
        <R12 as DefaultGrpcType>::C,
        <R13 as DefaultGrpcType>::C,
        <R14 as DefaultGrpcType>::C,
        <R15 as DefaultGrpcType>::C,
    );
}

} // verus!
