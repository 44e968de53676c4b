//! Errors returned from failed attempts to convert data.
use core::fmt::Debug;
use prost::DecodeError;
use vstd::prelude::*;
use vstd::string::StringExecFns;

verus! {

/// `prost::DecodeError`: why a message could not be decoded. The library
/// carries it and never looks inside.
#[verifier::external_type_specification]
#[verifier::external_body]
pub struct ExDecodeError(DecodeError);

/// `<prost::DecodeError as Clone>::clone`, which prost derives: the copy is
/// the same error.
pub assume_specification[ <DecodeError as Clone>::clone ](error: &DecodeError) -> (copy:
    DecodeError)
    ensures
        copy == *error,
;

/// Why a conversion failed.
#[derive(Clone, Debug, PartialEq)]
pub enum ConversionErrorKind {
    /// The value's variant is not one the target type is made from.
    Incompatible,
    /// The value has the right variant, but the target type cannot hold it.
    OutOfRange,
    /// A collection or a row does not have the number of items asked for.
    WrongNumberOfItems { actual: usize, expected: usize },
    /// The bytes of a payload are not a message of the expected type.
    GrpcDecodeError(DecodeError),
    /// A record needs a field that is absent and has no default.
    FieldNotFound(String),
}

/// The model of a [`ConversionErrorKind`].
pub enum Failure {
    Incompatible,
    OutOfRange,
    WrongNumberOfItems { actual: nat, expected: nat },
    DecodeFailure(DecodeError),
    FieldNotFound(Seq<char>),
}

impl View for ConversionErrorKind {
    type V = Failure;

    open spec fn view(&self) -> Failure {
        match self {
            ConversionErrorKind::Incompatible => Failure::Incompatible,
            ConversionErrorKind::OutOfRange => Failure::OutOfRange,
            ConversionErrorKind::WrongNumberOfItems { actual, expected } => {
                Failure::WrongNumberOfItems { actual: *actual as nat, expected: *expected as nat }
            },
            ConversionErrorKind::GrpcDecodeError(e) => Failure::DecodeFailure(*e),
            ConversionErrorKind::FieldNotFound(name) => Failure::FieldNotFound(name@),
        }
    }
}

/// Error returned when some data received from the wire could not be converted
/// to the desired Rust type.
#[derive(Clone, Debug)]
pub struct ConversionError {
    /// Describes the reason why the conversion failed.
    pub kind: ConversionErrorKind,
    /// Debug string of the source value that failed to be converted.
    pub source: String,
    /// Name of the target Rust type that the value failed to convert to.
    pub target_type_name: String,
}

/// The `Debug` rendering of a value, as `format!` with `{:?}` writes it.
/// Nothing is claimed of the text.
#[verifier::external_body]
fn debug_text<S: Debug>(source: &S) -> (text: String) {
    format!("{:?}", source)
}

impl ConversionError {
    fn new<S: Debug>(kind: ConversionErrorKind, source: S, target: &str) -> (e: ConversionError)
        ensures
            e.kind == kind,
            e.target_type_name@ == target@,
    {
        ConversionError {
            kind,
            source: debug_text(&source),
            target_type_name: target.to_owned(),
        }
    }

    /// The error of a value whose variant the target type is not made from.
    pub fn incompatible<S: Debug>(source: S, target: &str) -> (e: ConversionError)
        ensures
            e.kind@ == Failure::Incompatible,
            e.target_type_name@ == target@,
    {
        Self::new(ConversionErrorKind::Incompatible, source, target)
    }

    /// The error of a value that the target type cannot hold.
    pub fn out_of_range<S: Debug>(source: S, target: &str) -> (e: ConversionError)
        ensures
            e.kind@ == Failure::OutOfRange,
            e.target_type_name@ == target@,
    {
        Self::new(ConversionErrorKind::OutOfRange, source, target)
    }

    /// The error of `actual` items where `expected` were asked for.
    pub fn wrong_number_of_items<S: Debug>(
        source: S,
        target: &str,
        actual: usize,
        expected: usize,
    ) -> (e: ConversionError)
        ensures
            e.kind@ == (Failure::WrongNumberOfItems {
                actual: actual as nat,
                expected: expected as nat,
            }),
            e.target_type_name@ == target@,
    {
        Self::new(ConversionErrorKind::WrongNumberOfItems { actual, expected }, source, target)
    }

    /// The error of bytes that did not decode, with the decoder's own error.
    pub fn decode_error<S: Debug>(source: S, target: &str, error: DecodeError) -> (e:
        ConversionError)
        ensures
            e.kind@ == Failure::DecodeFailure(error),
            e.target_type_name@ == target@,
    {
        Self::new(ConversionErrorKind::GrpcDecodeError(error), source, target)
    }

    /// The error of a record field that is absent and has no default.
    pub fn field_not_found<S: Debug>(source: S, target: &str, field_name: &str) -> (e:
        ConversionError)
        ensures
            e.kind@ == Failure::FieldNotFound(field_name@),
            e.target_type_name@ == target@,
    {
        Self::new(ConversionErrorKind::FieldNotFound(field_name.to_owned()), source, target)
    }

    /// What `Display` would print: a sentence naming the source and the target.
    pub fn message(&self) -> (text: String)
        ensures
            text@ == "Cannot convert value "@ + self.source@ + " to "@ + self.target_type_name@,
    {
        let mut text = "Cannot convert value ".to_owned();
        text.append(self.source.as_str());
        text.append(" to ");
        text.append(self.target_type_name.as_str());
        text
    }
}

} // verus!
