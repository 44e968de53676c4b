//! The messages of the protocol, as plain data.
//!
//! Nothing here is encoded or decoded: turning a message into bytes and back is
//! the transport's work. The library frames encoded bytes in a [`Payload`] and
//! finds them again in a [`Response`].
use vstd::prelude::*;

pub mod value;

verus! {

/// A single bound parameter or result column.
///
/// A fresh value has `inner: None`; so has one that
/// [`take`](Value::take) has emptied.
#[derive(Debug, PartialEq)]
pub struct Value {
    pub inner: Option<value::Inner>,
}

/// A list, a set, a tuple or a map. A map holds its entries flat: element `2i`
/// is key `i`, element `2i + 1` is value `i`.
#[derive(Debug, Clone, PartialEq)]
pub struct Collection {
    pub elements: Vec<Value>,
}

/// A value of a user defined type: its fields by name.
///
/// A name is meant to occur once. Where one occurs twice, the first entry is
/// the field's value.
#[derive(Debug, Clone, PartialEq)]
pub struct UdtValue {
    pub fields: Vec<(String, Value)>,
}

#[derive(Debug, Clone, PartialEq, Eq)]
pub struct Uuid {
    pub value: Vec<u8>,
}

#[derive(Debug, Clone, PartialEq, Eq)]
pub struct Inet {
    pub value: Vec<u8>,
}

/// Big-endian two's complement, of any length.
#[derive(Debug, Clone, PartialEq, Eq)]
pub struct Varint {
    pub value: Vec<u8>,
}

#[derive(Debug, Clone, PartialEq, Eq)]
pub struct Decimal {
    pub scale: u32,
    pub value: Vec<u8>,
}

/// The values of one result row, one per column. The names of the columns
/// are in the [`ResultSet`].
#[derive(Debug, Clone, PartialEq)]
pub struct Row {
    pub values: Vec<Value>,
}

/// The simple column types.
#[derive(Debug, Clone, Copy, PartialEq, Eq)]
pub enum BasicType {
    Custom,
    Ascii,
    Bigint,
    Blob,
    Boolean,
    Counter,
    Decimal,
    Double,
    Float,
    Int,
    Text,
    Timestamp,
    Uuid,
    Varchar,
    Varint,
    Timeuuid,
    Inet,
    Date,
    Time,
    Smallint,
    Tinyint,
}

/// The type of a column, as the server reports it. The conversions do not
/// read it.
#[derive(Debug, PartialEq)]
pub enum TypeSpec {
    Basic(BasicType),
    List(Box<TypeSpec>),
    SetOf(Box<TypeSpec>),
    MapOf(Box<TypeSpec>, Box<TypeSpec>),
    Udt(Vec<(String, TypeSpec)>),
    Tuple(Vec<TypeSpec>),
}

#[derive(Debug, PartialEq)]
pub struct ColumnSpec {
    pub type_spec: Option<TypeSpec>,
    pub name: String,
}

/// Rows with their columns. The order of the columns is the server's.
#[derive(Debug, PartialEq)]
pub struct ResultSet {
    pub columns: Vec<ColumnSpec>,
    pub rows: Vec<Row>,
    /// Where to resume. Passed through, never read.
    pub paging_state: Option<Vec<u8>>,
}

/// The parameters of one statement: all positional (`value_names` empty) or
/// all named (as many names as values).
#[derive(Debug, PartialEq)]
pub struct Values {
    pub values: Vec<Value>,
    pub value_names: Vec<String>,
}

/// Encoded bytes, tagged with the name of the message they encode.
#[derive(Debug, Clone, PartialEq, Eq)]
pub struct Any {
    pub type_url: String,
    pub value: Vec<u8>,
}

/// An encoded parameter list or result set.
#[derive(Debug, Clone, PartialEq, Eq)]
pub struct Payload {
    pub payload_type: i32,
    pub data: Option<Any>,
}

#[derive(Debug, Clone, Copy, PartialEq, Eq, Hash)]
pub enum Consistency {
    Any,
    One,
    Two,
    Three,
    Quorum,
    All,
    LocalQuorum,
    EachQuorum,
    Serial,
    LocalSerial,
    LocalOne,
}

/// A consistency level by its number in the protocol.
#[derive(Debug, Clone, Copy, PartialEq, Eq)]
pub struct ConsistencyValue {
    pub value: i32,
}

/// The settings of a statement. An option left out is decided by the server.
#[derive(Debug, PartialEq, Eq)]
pub struct QueryParameters {
    /// The keyspace the statement applies to.
    pub keyspace: Option<String>,
    pub consistency: Option<ConsistencyValue>,
    /// The most rows a response page may hold.
    pub page_size: Option<i32>,
    /// Where to resume, as an earlier response gave it.
    pub paging_state: Option<Vec<u8>>,
    /// Whether the server collects a trace of the execution.
    pub tracing: bool,
    /// The write timestamp, in microseconds.
    pub timestamp: Option<i64>,
    /// The consistency of conditional statements.
    pub serial_consistency: Option<ConsistencyValue>,
}

/// A statement with its parameters and settings.
#[derive(Debug, Clone, PartialEq)]
pub struct Query {
    pub cql: String,
    pub values: Option<Values>,
    pub parameters: Option<QueryParameters>,
}

/// The settings shared by the statements of a batch.
#[derive(Debug, PartialEq, Eq)]
pub struct BatchParameters {
    pub keyspace: Option<String>,
    pub consistency: Option<ConsistencyValue>,
    pub tracing: bool,
    pub timestamp: Option<i64>,
    pub serial_consistency: Option<ConsistencyValue>,
}

/// One statement of a batch, with its own parameters.
#[derive(Debug, PartialEq)]
pub struct BatchQuery {
    pub cql: String,
    pub values: Option<Values>,
}

#[derive(Debug, Clone, PartialEq)]
pub struct Batch {
    pub batch_type: i32,
    pub queries: Vec<BatchQuery>,
    pub parameters: Option<BatchParameters>,
}

/// What a statement changed in the schema.
#[derive(Debug, Clone, PartialEq, Eq)]
pub struct SchemaChange {
    pub change_type: i32,
    pub target: i32,
    pub keyspace: String,
    pub name: Option<String>,
    pub argument_types: Vec<String>,
}

/// What a response carries.
#[derive(Debug, Clone, PartialEq, Eq)]
pub enum ResponseResult {
    ResultSet(Payload),
    SchemaChange(SchemaChange),
}

/// The answer to a query or a batch.
#[derive(Debug, Clone, PartialEq, Eq)]
pub struct Response {
    pub result: Option<ResponseResult>,
    pub warnings: Vec<String>,
}

} // verus!
