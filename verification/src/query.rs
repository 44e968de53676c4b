//! Utilities for building queries and batches.
//!
//! The parameters of a statement are bound by position, with
//! [`bind`](QueryBuilder::bind) and [`bind_ith`](QueryBuilder::bind_ith), or by
//! name, with [`bind_name`](QueryBuilder::bind_name): never both in one
//! statement. [`can_bind`](QueryBuilder::can_bind) and
//! [`can_bind_name`](QueryBuilder::can_bind_name) tell which of the two a
//! builder still takes.
use crate::into_value::IntoValue;
use crate::proto::{
    Any, Batch, BatchParameters, BatchQuery, Consistency, ConsistencyValue, Payload, Query,
    QueryParameters, Value, Values,
};
use crate::types;
use crate::wire::{texts_of, wires_of, Wire};
use vstd::prelude::*;
use vstd::std_specs::convert::FromSpecImpl;

mod tuples;

verus! {

/// The number of a consistency level in the protocol.
pub open spec fn consistency_code(consistency: Consistency) -> i32 {
    match consistency {
        Consistency::Any => 0,
        Consistency::One => 1,
        Consistency::Two => 2,
        Consistency::Three => 3,
        Consistency::Quorum => 4,
        Consistency::All => 5,
        Consistency::LocalQuorum => 6,
        Consistency::EachQuorum => 7,
        Consistency::Serial => 8,
        Consistency::LocalSerial => 9,
        Consistency::LocalOne => 10,
    }
}

impl From<Consistency> for i32 {
    fn from(consistency: Consistency) -> (code: i32) {
        match consistency {
            Consistency::Any => 0,
            Consistency::One => 1,
            Consistency::Two => 2,
            Consistency::Three => 3,
            Consistency::Quorum => 4,
            Consistency::All => 5,
            Consistency::LocalQuorum => 6,
            Consistency::EachQuorum => 7,
            Consistency::Serial => 8,
            Consistency::LocalSerial => 9,
            Consistency::LocalOne => 10,
        }
    }
}

impl FromSpecImpl<Consistency> for i32 {
    open spec fn obeys_from_spec() -> bool {
        true
    }

    open spec fn from_spec(consistency: Consistency) -> i32 {
        consistency_code(consistency)
    }
}

/// The model of the settings of a statement.
pub struct Settings {
    pub keyspace: Option<Seq<char>>,
    pub consistency: Option<i32>,
    pub page_size: Option<i32>,
    pub paging_state: Option<Seq<u8>>,
    pub tracing: bool,
    pub timestamp: Option<i64>,
    pub serial_consistency: Option<i32>,
}

/// The model of the settings of a batch.
pub struct BatchSettings {
    pub keyspace: Option<Seq<char>>,
    pub consistency: Option<i32>,
    pub tracing: bool,
    pub timestamp: Option<i64>,
    pub serial_consistency: Option<i32>,
}

impl Settings {
    /// Nothing set: every option is the server's.
    pub open spec fn server_defaults() -> Settings {
        Settings {
            keyspace: None,
            consistency: None,
            page_size: None,
            paging_state: None,
            tracing: false,
            timestamp: None,
            serial_consistency: None,
        }
    }
}

impl BatchSettings {
    /// Nothing set: every option is the server's.
    pub open spec fn server_defaults() -> BatchSettings {
        BatchSettings {
            keyspace: None,
            consistency: None,
            tracing: false,
            timestamp: None,
            serial_consistency: None,
        }
    }
}

/// The number that an optional consistency level holds.
pub open spec fn level_of(level: Option<ConsistencyValue>) -> Option<i32> {
    match level {
        Some(l) => Some(l.value),
        None => None,
    }
}

/// The view of an optional string.
pub open spec fn text_of(text: Option<String>) -> Option<Seq<char>> {
    match text {
        Some(t) => Some(t@),
        None => None,
    }
}

impl View for QueryParameters {
    type V = Settings;

    open spec fn view(&self) -> Settings {
        Settings {
            keyspace: text_of(self.keyspace),
            consistency: level_of(self.consistency),
            page_size: self.page_size,
            paging_state: match self.paging_state {
                Some(state) => Some(state@),
                None => None,
            },
            tracing: self.tracing,
            timestamp: self.timestamp,
            serial_consistency: level_of(self.serial_consistency),
        }
    }
}

impl View for BatchParameters {
    type V = BatchSettings;

    open spec fn view(&self) -> BatchSettings {
        BatchSettings {
            keyspace: text_of(self.keyspace),
            consistency: level_of(self.consistency),
            tracing: self.tracing,
            timestamp: self.timestamp,
            serial_consistency: level_of(self.serial_consistency),
        }
    }
}

impl Default for QueryParameters {
    /// Nothing is set: every option is the server's.
    fn default() -> (p: QueryParameters)
        ensures
            p@ == Settings::server_defaults(),
    {
        QueryParameters {
            keyspace: None,
            consistency: None,
            page_size: None,
            paging_state: None,
            tracing: false,
            timestamp: None,
            serial_consistency: None,
        }
    }
}

impl Default for BatchParameters {
    /// Nothing is set: every option is the server's.
    fn default() -> (p: BatchParameters)
        ensures
            p@ == BatchSettings::server_defaults(),
    {
        BatchParameters {
            keyspace: None,
            consistency: None,
            tracing: false,
            timestamp: None,
            serial_consistency: None,
        }
    }
}

/// The model of the parameters of a statement: the values, and their names
/// where they are bound by name.
pub struct Bound {
    pub values: Seq<Wire>,
    pub names: Seq<Seq<char>>,
}

impl Bound {
    /// Nothing bound.
    pub open spec fn none() -> Bound {
        Bound { values: Seq::empty(), names: Seq::empty() }
    }

    /// All positional, or all named.
    pub open spec fn wf(self) -> bool {
        self.names.len() == 0 || self.names.len() == self.values.len()
    }

    /// Whether values are bound by name.
    pub open spec fn is_named(self) -> bool {
        self.names.len() > 0
    }

    /// Whether values are bound by position.
    pub open spec fn is_positional(self) -> bool {
        self.values.len() > self.names.len()
    }

    /// Whether more values may be bound by position: none is bound by name.
    pub open spec fn takes_positions(self) -> bool {
        !self.is_named()
    }

    /// Whether more values may be bound by name: none is bound by position,
    /// so that every value has its name.
    pub open spec fn takes_names(self) -> bool {
        self.names.len() == self.values.len()
    }

    /// These parameters followed by `more`.
    pub open spec fn extended(self, more: Bound) -> Bound {
        Bound { values: self.values + more.values, names: self.names + more.names }
    }

    /// These parameters with `w` bound at position `index`. Positions that
    /// were not there before it are `unset`.
    pub open spec fn with_ith(self, index: int, w: Wire) -> Bound {
        Bound {
            values: Seq::new(
                if index < self.values.len() {
                    self.values.len()
                } else {
                    (index + 1) as nat
                },
                |i: int|
                    if i == index {
                        w
                    } else if i < self.values.len() {
                        self.values[i]
                    } else {
                        Wire::Unset
                    },
            ),
            names: self.names,
        }
    }

    /// These parameters with `w` bound to `name`.
    pub open spec fn with_named(self, name: Seq<char>, w: Wire) -> Bound {
        Bound { values: self.values.push(w), names: self.names.push(name) }
    }
}

impl View for Values {
    type V = Bound;

    open spec fn view(&self) -> Bound {
        Bound { values: wires_of(self.values@), names: texts_of(self.value_names@) }
    }
}

/// Copies of the values, in order.
fn copy_values(values: &Vec<Value>) -> (copies: Vec<Value>)
    ensures
        wires_of(copies@) == wires_of(values@),
{
    let mut copies: Vec<Value> = Vec::new();
    let mut i: usize = 0;
    while i < values.len()
        invariant
            i <= values@.len(),
            copies@.len() == i,
            forall|j: int| 0 <= j < i ==> (#[trigger] copies@[j])@ == values@[j]@,
        decreases values@.len() - i,
    {
        copies.push(values[i].clone());
        i += 1;
    }
    assert(wires_of(copies@) =~= wires_of(values@));
    copies
}

/// Copies of the names, in order.
fn copy_names(names: &Vec<String>) -> (copies: Vec<String>)
    ensures
        texts_of(copies@) == texts_of(names@),
{
    let mut copies: Vec<String> = Vec::new();
    let mut i: usize = 0;
    while i < names.len()
        invariant
            i <= names@.len(),
            copies@.len() == i,
            forall|j: int| 0 <= j < i ==> (#[trigger] copies@[j])@ == names@[j]@,
        decreases names@.len() - i,
    {
        copies.push(names[i].clone());
        i += 1;
    }
    assert(texts_of(copies@) =~= texts_of(names@));
    copies
}

/// A copy of an optional text.
fn copy_text(text: &Option<String>) -> (copy: Option<String>)
    ensures
        text_of(copy) == text_of(*text),
{
    match text {
        Some(t) => Some(t.clone()),
        None => None,
    }
}

/// A copy of optional bytes.
fn copy_bytes(bytes: &Option<Vec<u8>>) -> (copy: Option<Vec<u8>>)
    ensures
        match (copy, *bytes) {
            (Some(c), Some(b)) => c@ == b@,
            (None, None) => true,
            _ => false,
        },
{
    match bytes {
        Some(b) => {
            let mut copy: Vec<u8> = Vec::new();
            let mut i: usize = 0;
            while i < b.len()
                invariant
                    i <= b@.len(),
                    copy@ == b@.take(i as int),
                decreases b@.len() - i,
            {
                copy.push(b[i]);
                assert(b@.take(i + 1) == b@.take(i as int).push(b@[i as int]));
                i += 1;
            }
            assert(b@.take(b@.len() as int) == b@);
            Some(copy)
        },
        None => None,
    }
}

impl Clone for QueryParameters {
    /// A copy with the same settings.
    fn clone(&self) -> (copy: QueryParameters)
        ensures
            copy@ == self@,
    {
        QueryParameters {
            keyspace: copy_text(&self.keyspace),
            consistency: self.consistency,
            page_size: self.page_size,
            paging_state: copy_bytes(&self.paging_state),
            tracing: self.tracing,
            timestamp: self.timestamp,
            serial_consistency: self.serial_consistency,
        }
    }
}

impl Clone for BatchParameters {
    /// A copy with the same settings.
    fn clone(&self) -> (copy: BatchParameters)
        ensures
            copy@ == self@,
    {
        BatchParameters {
            keyspace: copy_text(&self.keyspace),
            consistency: self.consistency,
            tracing: self.tracing,
            timestamp: self.timestamp,
            serial_consistency: self.serial_consistency,
        }
    }
}

impl Clone for Values {
    /// A copy with the same values under the same names.
    fn clone(&self) -> (copy: Values)
        ensures
            copy@ == self@,
    {
        Values { values: copy_values(&self.values), value_names: copy_names(&self.value_names) }
    }
}

/// The model of the parameters of a built statement: none where the
/// statement has none, which is not the same as an empty list.
pub open spec fn built_values(values: Option<Values>) -> Option<Bound> {
    match values {
        Some(v) => Some(v@),
        None => None,
    }
}

/// What a builder hands out of what is bound: all of it where a value is
/// bound, and nothing where none is.
pub open spec fn handed_out(bound: Bound) -> Option<Bound> {
    if bound.values.len() > 0 {
        Some(bound)
    } else {
        None
    }
}

/// What stays bound in a builder that has handed out: nothing, where it
/// handed out; what was bound, where it did not.
pub open spec fn left_bound(bound: Bound) -> Bound {
    if bound.values.len() > 0 {
        Bound::none()
    } else {
        bound
    }
}

/// Parameters that are bound in one call: a vector of values, a tuple, or
/// [`Values`] themselves. A record binds its fields by name through
/// [`Values`].
pub trait IntoValues: Sized {
    /// What is bound. An implementation that is not verified need not say.
    open spec fn bound(&self) -> Bound {
        arbitrary()
    }

    fn into_values(self) -> (values: Values)
        ensures
            values@ == self.bound(),
    ;
}

impl IntoValues for Values {
    open spec fn bound(&self) -> Bound {
        self@
    }

    fn into_values(self) -> (values: Values) {
        self
    }
}

/// The values, by position.
impl IntoValues for Vec<Value> {
    open spec fn bound(&self) -> Bound {
        Bound { values: wires_of(self@), names: Seq::empty() }
    }

    fn into_values(self) -> (values: Values) {
        let values = Values { values: self, value_names: Vec::new() };
        assert(values@.names =~= Seq::<Seq<char>>::empty());
        values
    }
}

/// Values bound by position: the earlier form of [`Values`].
pub struct QueryValues(pub Vec<Value>);

impl IntoValues for QueryValues {
    open spec fn bound(&self) -> Bound {
        Bound { values: wires_of(self.0@), names: Seq::empty() }
    }

    fn into_values(self) -> (values: Values) {
        self.0.into_values()
    }
}

/// The logic of binding parameters, shared by [`QueryBuilder`] and
/// [`BatchBuilder`].
pub struct PayloadBuilder {
    values: Vec<Value>,
    value_names: Vec<String>,
}

impl View for PayloadBuilder {
    type V = Bound;

    closed spec fn view(&self) -> Bound {
        Bound { values: wires_of(self.values@), names: texts_of(self.value_names@) }
    }
}

impl Clone for PayloadBuilder {
    /// A copy with the same values bound.
    fn clone(&self) -> (copy: PayloadBuilder)
        ensures
            copy@ == self@,
    {
        PayloadBuilder {
            values: copy_values(&self.values),
            value_names: copy_names(&self.value_names),
        }
    }
}

impl PayloadBuilder {
    /// A builder with nothing bound.
    pub fn new() -> (builder: PayloadBuilder)
        ensures
            builder@ == Bound::none(),
    {
        let builder = PayloadBuilder { values: Vec::new(), value_names: Vec::new() };
        assert(builder@.values =~= Seq::<Wire>::empty());
        assert(builder@.names =~= Seq::<Seq<char>>::empty());
        builder
    }

    /// Whether [`bind`](PayloadBuilder::bind) and
    /// [`bind_ith`](PayloadBuilder::bind_ith) may be called: no value is bound
    /// by name.
    pub fn can_bind(&self) -> (yes: bool)
        ensures
            yes == self@.takes_positions(),
    {
        self.value_names.len() == 0
    }

    /// Whether [`bind_name`](PayloadBuilder::bind_name) may be called: no value
    /// is bound by position.
    pub fn can_bind_name(&self) -> (yes: bool)
        ensures
            yes == self@.takes_names(),
    {
        self.values.len() == self.value_names.len()
    }

    /// Binds all of `values` after what is bound already.
    ///
    /// Not to be called after [`bind_name`](PayloadBuilder::bind_name); values
    /// that bear names are bound only where nothing is bound yet.
    pub fn bind<I: IntoValues>(&mut self, values: I)
        requires
            old(self)@.takes_positions(),
            values.bound().wf(),
            values.bound().is_named() ==> old(self)@.values.len() == 0,
        ensures
            final(self)@ == old(self)@.extended(values.bound()),
            final(self)@.wf(),
    {
        let mut more = values.into_values();
        self.values.append(&mut more.values);
        self.value_names.append(&mut more.value_names);
        proof {
            let a = old(self)@;
            let b = values.bound();
            assert(self@.values =~= a.values + b.values);
            assert(self@.names =~= a.names + b.names);
        }
    }

    /// Binds `value` at position `index`. Where the position is not there
    /// yet, the values are extended to it, and the positions between are
    /// `unset`.
    ///
    /// Not to be called after [`bind_name`](PayloadBuilder::bind_name).
    pub fn bind_ith<T: IntoValue<types::Any>>(&mut self, index: usize, value: T)
        requires
            old(self)@.takes_positions(),
            index < usize::MAX,
        ensures
            final(self)@ == old(self)@.with_ith(index as int, value.encoded()),
            final(self)@.wf(),
    {
        while self.values.len() <= index
            invariant
                self.value_names == old(self).value_names,
                old(self)@.values.len() <= self.values@.len(),
                self.values@.len() <= index + 1 || self.values@.len() == old(self)@.values.len(),
                forall|i: int|
                    0 <= i < old(self)@.values.len() ==> (#[trigger] self.values@[i])@ == old(
                        self,
                    )@.values[i],
                forall|i: int|
                    old(self)@.values.len() <= i < self.values@.len() ==> (
                    #[trigger] self.values@[i])@ == Wire::Unset,
            decreases index + 1 - self.values@.len(),
        {
            self.values.push(Value::unset());
        }
        let mut bound = value.into_value();
        core::mem::swap(&mut self.values[index], &mut bound);
        proof {
            assert(self@.values =~= old(self)@.with_ith(index as int, value.encoded()).values);
        }
    }

    /// Binds `value` to `name`.
    ///
    /// Not to be mixed with [`bind`](PayloadBuilder::bind) and
    /// [`bind_ith`](PayloadBuilder::bind_ith).
    pub fn bind_name<T: IntoValue<types::Any>>(&mut self, name: &str, value: T)
        requires
            old(self)@.takes_names(),
        ensures
            final(self)@ == old(self)@.with_named(name@, value.encoded()),
            final(self)@.wf(),
    {
        self.value_names.push(name.to_owned());
        self.values.push(value.into_value());
        proof {
            let a = old(self)@;
            assert(self@.values =~= a.values.push(value.encoded()));
            assert(self@.names =~= a.names.push(name@));
        }
    }

    /// Hands out what is bound and leaves the builder with nothing bound.
    /// Where no value is bound there is nothing to hand out: `None`, which is
    /// not the same as an empty list of parameters.
    pub fn build(&mut self) -> (built: Option<Values>)
        ensures
            built_values(built) == handed_out(old(self)@),
            final(self)@ == left_bound(old(self)@),
            built is None ==> *final(self) == *old(self),
    {
        if self.values.len() == 0 {
            None
        } else {
            let mut values: Vec<Value> = Vec::new();
            let mut value_names: Vec<String> = Vec::new();
            core::mem::swap(&mut self.values, &mut values);
            core::mem::swap(&mut self.value_names, &mut value_names);
            proof {
                assert(self@.values =~= Seq::<Wire>::empty());
                assert(self@.names =~= Seq::<Seq<char>>::empty());
            }
            Some(Values { values, value_names })
        }
    }
}

/// The name under which encoded [`Values`](crate::proto::Values) travel.
pub const VALUES_TYPE_URL: &'static str = "type.googleapis.com/stargate.Values";

impl Payload {
    /// Frames the encoded parameters of a statement: what the transport sends
    /// in the place of the [`Values`] of a query, once it has encoded them.
    pub fn of_values(data: Vec<u8>) -> (payload: Payload)
        ensures
            payload.payload_type == 0,
            payload.data matches Some(any) && any.type_url@ == VALUES_TYPE_URL@ && any.value@
                == data@,
    {
        Payload {
            payload_type: 0,
            data: Some(Any { type_url: VALUES_TYPE_URL.to_owned(), value: data }),
        }
    }
}

/// The model of a statement: its text, its parameters (none, or values with
/// their names) and its settings.
pub struct Statement {
    pub cql: Seq<char>,
    pub values: Option<Bound>,
    pub settings: Option<Settings>,
}

impl View for Query {
    type V = Statement;

    open spec fn view(&self) -> Statement {
        Statement {
            cql: self.cql@,
            values: built_values(self.values),
            settings: match self.parameters {
                Some(p) => Some(p@),
                None => None,
            },
        }
    }
}

/// The model of a [`QueryBuilder`]: what has been set so far.
pub struct QueryDraft {
    pub cql: Option<Seq<char>>,
    pub bound: Bound,
    pub settings: Settings,
}

/// Builds a [`Query`]: sets the CQL string, binds values and sets the
/// settings of the execution.
///
/// A builder can be cloned: set what several queries share, then clone it for
/// each query.
pub struct QueryBuilder {
    cql: Option<String>,
    payload: PayloadBuilder,
    parameters: QueryParameters,
}

impl View for QueryBuilder {
    type V = QueryDraft;

    closed spec fn view(&self) -> QueryDraft {
        QueryDraft { cql: text_of(self.cql), bound: self.payload@, settings: self.parameters@ }
    }
}

impl Clone for QueryBuilder {
    /// A copy with the same query, values and settings: what several queries
    /// share is set once, and the builder is cloned for each query.
    fn clone(&self) -> (copy: QueryBuilder)
        ensures
            copy@ == self@,
    {
        QueryBuilder {
            cql: copy_text(&self.cql),
            payload: self.payload.clone(),
            parameters: self.parameters.clone(),
        }
    }
}

impl QueryBuilder {
    /// Creates a new `QueryBuilder` with nothing set and no query.
    ///
    /// Call [`query`](QueryBuilder::query) to set the CQL query string before
    /// calling [`build`](QueryBuilder::build).
    pub fn new() -> (builder: QueryBuilder)
        ensures
            builder@.cql is None,
            builder@.bound == Bound::none(),
            builder@.settings == Settings::server_defaults(),
    {
        QueryBuilder {
            cql: None,
            payload: PayloadBuilder::new(),
            parameters: QueryParameters::default(),
        }
    }

    /// Sets the CQL query string.
    pub fn query(self, cql: &str) -> (builder: QueryBuilder)
        ensures
            builder@ == (QueryDraft { cql: Some(cql@), ..self@ }),
    {
        let mut this = self;
        this.cql = Some(cql.to_owned());
        this
    }

    /// Whether the CQL query string is set, so that
    /// [`build`](QueryBuilder::build) may be called.
    pub fn has_query(&self) -> (yes: bool)
        ensures
            yes == self@.cql is Some,
    {
        self.cql.is_some()
    }

    /// Whether [`bind`](QueryBuilder::bind) and
    /// [`bind_ith`](QueryBuilder::bind_ith) may be called: no value is bound by
    /// name.
    pub fn can_bind(&self) -> (yes: bool)
        ensures
            yes == self@.bound.takes_positions(),
    {
        self.payload.can_bind()
    }

    /// Whether [`bind_name`](QueryBuilder::bind_name) may be called: no value
    /// is bound by position.
    pub fn can_bind_name(&self) -> (yes: bool)
        ensures
            yes == self@.bound.takes_names(),
    {
        self.payload.can_bind_name()
    }

    /// Binds all of `values` at once, after what is bound already: a vector
    /// of values, or a tuple.
    ///
    /// Not to be called after [`bind_name`](QueryBuilder::bind_name).
    pub fn bind<I: IntoValues>(self, values: I) -> (builder: QueryBuilder)
        requires
            self@.bound.takes_positions(),
            values.bound().wf(),
            values.bound().is_named() ==> self@.bound.values.len() == 0,
        ensures
            builder@ == (QueryDraft { bound: self@.bound.extended(values.bound()), ..self@ }),
            builder@.bound.wf(),
    {
        let mut this = self;
        this.payload.bind(values);
        this
    }

    /// Binds `value` at position `index`. Where the position is not there
    /// yet, the values are extended to it, and the positions between are
    /// [`Value::unset`].
    ///
    /// Not to be called after [`bind_name`](QueryBuilder::bind_name).
    pub fn bind_ith<T: IntoValue<types::Any>>(self, index: usize, value: T) -> (builder:
        QueryBuilder)
        requires
            self@.bound.takes_positions(),
            index < usize::MAX,
        ensures
            builder@ == (QueryDraft {
                bound: self@.bound.with_ith(index as int, value.encoded()),
                ..self@
            }),
            builder@.bound.wf(),
    {
        let mut this = self;
        this.payload.bind_ith(index, value);
        this
    }

    /// Binds `value` to `name`.
    ///
    /// Not to be mixed with [`bind`](QueryBuilder::bind) and
    /// [`bind_ith`](QueryBuilder::bind_ith).
    pub fn bind_name<T: IntoValue<types::Any>>(self, name: &str, value: T) -> (builder:
        QueryBuilder)
        requires
            self@.bound.takes_names(),
        ensures
            builder@ == (QueryDraft {
                bound: self@.bound.with_named(name@, value.encoded()),
                ..self@
            }),
            builder@.bound.wf(),
    {
        let mut this = self;
        this.payload.bind_name(name, value);
        this
    }

    /// The earlier name of [`bind_ith`](QueryBuilder::bind_ith).
    pub fn value<T: IntoValue<types::Any>>(self, index: usize, value: T) -> (builder:
        QueryBuilder)
        requires
            self@.bound.takes_positions(),
            index < usize::MAX,
        ensures
            builder@ == (QueryDraft {
                bound: self@.bound.with_ith(index as int, value.encoded()),
                ..self@
            }),
            builder@.bound.wf(),
    {
        self.bind_ith(index, value)
    }

    /// The earlier name of [`bind`](QueryBuilder::bind).
    pub fn values<I: IntoValues>(self, values: I) -> (builder: QueryBuilder)
        requires
            self@.bound.takes_positions(),
            values.bound().wf(),
            values.bound().is_named() ==> self@.bound.values.len() == 0,
        ensures
            builder@ == (QueryDraft { bound: self@.bound.extended(values.bound()), ..self@ }),
            builder@.bound.wf(),
    {
        self.bind(values)
    }

    /// The earlier name of [`bind_name`](QueryBuilder::bind_name).
    pub fn named_value<T: IntoValue<types::Any>>(self, name: &str, value: T) -> (builder:
        QueryBuilder)
        requires
            self@.bound.takes_names(),
        ensures
            builder@ == (QueryDraft {
                bound: self@.bound.with_named(name@, value.encoded()),
                ..self@
            }),
            builder@.bound.wf(),
    {
        self.bind_name(name, value)
    }

    /// Sets the keyspace the query will apply to.
    pub fn keyspace(self, keyspace: &str) -> (builder: QueryBuilder)
        ensures
            builder@ == (QueryDraft {
                settings: Settings { keyspace: Some(keyspace@), ..self@.settings },
                ..self@
            }),
    {
        let mut this = self;
        this.parameters.keyspace = Some(keyspace.to_owned());
        this
    }

    /// Sets the consistency level of the query.
    pub fn consistency(self, consistency: Consistency) -> (builder: QueryBuilder)
        ensures
            builder@ == (QueryDraft {
                settings: Settings {
                    consistency: Some(consistency_code(consistency)),
                    ..self@.settings
                },
                ..self@
            }),
    {
        let mut this = self;
        this.parameters.consistency = Some(ConsistencyValue { value: i32::from(consistency) });
        this
    }

    /// Sets the serial consistency level, for a lightweight transaction.
    pub fn serial_consistency(self, consistency: Consistency) -> (builder: QueryBuilder)
        ensures
            builder@ == (QueryDraft {
                settings: Settings {
                    serial_consistency: Some(consistency_code(consistency)),
                    ..self@.settings
                },
                ..self@
            }),
    {
        let mut this = self;
        this.parameters.serial_consistency = Some(
            ConsistencyValue { value: i32::from(consistency) },
        );
        this
    }

    /// Sets the maximum number of rows that will be returned in the response.
    pub fn page_size(self, size: i32) -> (builder: QueryBuilder)
        ensures
            builder@ == (QueryDraft {
                settings: Settings { page_size: Some(size), ..self@.settings },
                ..self@
            }),
    {
        let mut this = self;
        this.parameters.page_size = Some(size);
        this
    }

    /// Sets a paging state that indicates where to resume iteration in the
    /// result set.
    pub fn paging_state(self, paging_state: Vec<u8>) -> (builder: QueryBuilder)
        ensures
            builder@ == (QueryDraft {
                settings: Settings { paging_state: Some(paging_state@), ..self@.settings },
                ..self@
            }),
    {
        let mut this = self;
        this.parameters.paging_state = Some(paging_state);
        this
    }

    /// Sets whether the server should collect tracing information about the
    /// execution of the query.
    pub fn tracing(self, tracing: bool) -> (builder: QueryBuilder)
        ensures
            builder@ == (QueryDraft {
                settings: Settings { tracing, ..self@.settings },
                ..self@
            }),
    {
        let mut this = self;
        this.parameters.tracing = tracing;
        this
    }

    /// Sets the query timestamp, in microseconds.
    pub fn timestamp(self, timestamp: i64) -> (builder: QueryBuilder)
        ensures
            builder@ == (QueryDraft {
                settings: Settings { timestamp: Some(timestamp), ..self@.settings },
                ..self@
            }),
    {
        let mut this = self;
        this.parameters.timestamp = Some(timestamp);
        this
    }

    /// Sets all settings of the query at once, in place of any that were set
    /// before.
    pub fn parameters(self, parameters: QueryParameters) -> (builder: QueryBuilder)
        ensures
            builder@ == (QueryDraft { settings: parameters@, ..self@ }),
    {
        QueryBuilder { cql: self.cql, payload: self.payload, parameters }
    }

    /// Builds the query, which holds what was set: the text, the parameters
    /// (none where no value was bound) and the settings.
    ///
    /// Not to be called before [`query`](QueryBuilder::query).
    pub fn build(self) -> (query: Query)
        requires
            self@.cql is Some,
        ensures
            query@ == (Statement {
                cql: self@.cql->Some_0,
                values: handed_out(self@.bound),
                settings: Some(self@.settings),
            }),
    {
        let mut this = self;
        let values = this.payload.build();
        Query { cql: this.cql.unwrap(), values, parameters: Some(this.parameters) }
    }
}

impl Default for QueryBuilder {
    fn default() -> (builder: QueryBuilder)
        ensures
            builder@.cql is None,
            builder@.bound == Bound::none(),
            builder@.settings == Settings::server_defaults(),
    {
        QueryBuilder::new()
    }
}

impl Query {
    /// Returns a fresh builder for building a query.
    pub fn builder() -> (builder: QueryBuilder)
        ensures
            builder@.cql is None,
            builder@.bound == Bound::none(),
            builder@.settings == Settings::server_defaults(),
    {
        QueryBuilder::new()
    }
}

/// The model of one statement of a batch: its text and its parameters (none,
/// or values with their names).
pub struct BatchStatement {
    pub cql: Seq<char>,
    pub values: Option<Bound>,
}

impl View for BatchQuery {
    type V = BatchStatement;

    open spec fn view(&self) -> BatchStatement {
        BatchStatement { cql: self.cql@, values: built_values(self.values) }
    }
}

/// The models of the statements of a batch, in order.
pub open spec fn statements_of(queries: Seq<BatchQuery>) -> Seq<BatchStatement> {
    Seq::new(queries.len(), |i: int| queries[i]@)
}

/// The model of a batch: its statements and its settings.
pub struct BatchView {
    pub batch_type: i32,
    pub statements: Seq<BatchStatement>,
    pub settings: Option<BatchSettings>,
}

impl View for Batch {
    type V = BatchView;

    open spec fn view(&self) -> BatchView {
        BatchView {
            batch_type: self.batch_type,
            statements: statements_of(self.queries@),
            settings: match self.parameters {
                Some(p) => Some(p@),
                None => None,
            },
        }
    }
}

/// The model of a [`BatchBuilder`]: the statements that are complete, the
/// text and the parameters of the one that is being built, and the settings.
pub struct BatchDraft {
    pub cql: Option<Seq<char>>,
    pub bound: Bound,
    pub settings: BatchSettings,
    pub statements: Seq<BatchStatement>,
}

impl BatchDraft {
    /// The draft with the statement that is being built completed: it joins
    /// the statements with all that is bound, or with no parameters where no
    /// value is bound, and nothing of it stays bound. Where no statement is
    /// being built, nothing changes.
    pub open spec fn finalized(self) -> BatchDraft {
        match self.cql {
            Some(cql) => BatchDraft {
                cql: None,
                bound: left_bound(self.bound),
                settings: self.settings,
                statements: self.statements.push(
                    BatchStatement { cql, values: handed_out(self.bound) },
                ),
            },
            None => self,
        }
    }
}

/// Builds a batch of queries. The statements share the settings of the
/// batch; each has its own parameters.
pub struct BatchBuilder {
    cql: Option<String>,
    payload: PayloadBuilder,
    parameters: BatchParameters,
    built_queries: Vec<BatchQuery>,
}

impl View for BatchBuilder {
    type V = BatchDraft;

    closed spec fn view(&self) -> BatchDraft {
        BatchDraft {
            cql: text_of(self.cql),
            bound: self.payload@,
            settings: self.parameters@,
            statements: statements_of(self.built_queries@),
        }
    }
}

impl Clone for BatchQuery {
    /// A copy with the same text and parameters.
    fn clone(&self) -> (copy: BatchQuery)
        ensures
            copy@ == self@,
    {
        BatchQuery {
            cql: self.cql.clone(),
            values: match &self.values {
                Some(values) => Some(values.clone()),
                None => None,
            },
        }
    }
}

impl Clone for BatchBuilder {
    /// A copy with the same statements, values and settings.
    fn clone(&self) -> (copy: BatchBuilder)
        ensures
            copy@ == self@,
    {
        let mut built_queries: Vec<BatchQuery> = Vec::new();
        let mut i: usize = 0;
        while i < self.built_queries.len()
            invariant
                i <= self.built_queries@.len(),
                built_queries@.len() == i,
                forall|j: int|
                    0 <= j < i ==> (#[trigger] built_queries@[j])@ == self.built_queries@[j]@,
            decreases self.built_queries@.len() - i,
        {
            built_queries.push(self.built_queries[i].clone());
            i += 1;
        }
        assert(statements_of(built_queries@) =~= statements_of(self.built_queries@));
        BatchBuilder {
            cql: copy_text(&self.cql),
            payload: self.payload.clone(),
            parameters: self.parameters.clone(),
            built_queries,
        }
    }
}

impl BatchBuilder {
    /// Creates a new `BatchBuilder` with no queries in it.
    pub fn new() -> (builder: BatchBuilder)
        ensures
            builder@ == (BatchDraft {
                cql: None,
                bound: Bound::none(),
                settings: BatchSettings::server_defaults(),
                statements: Seq::empty(),
            }),
    {
        let builder = BatchBuilder {
            cql: None,
            payload: PayloadBuilder::new(),
            parameters: BatchParameters::default(),
            built_queries: Vec::new(),
        };
        assert(builder@.statements =~= Seq::<BatchStatement>::empty());
        builder
    }

    /// Adds a CQL query to the batch, after completing the one before it.
    ///
    /// If the query has arguments, set their values with one of the `bind`
    /// functions, after this call: values that are bound before the first
    /// query of a batch go to that query.
    pub fn query(self, cql: &str) -> (builder: BatchBuilder)
        ensures
            builder@ == (BatchDraft { cql: Some(cql@), ..self@.finalized() }),
            self@.bound.wf() ==> builder@.bound.wf(),
    {
        let mut this = self;
        this.finalize_query();
        this.cql = Some(cql.to_owned());
        this
    }

    /// Whether [`bind`](BatchBuilder::bind) and
    /// [`bind_ith`](BatchBuilder::bind_ith) may be called: no value is bound by
    /// name.
    pub fn can_bind(&self) -> (yes: bool)
        ensures
            yes == self@.bound.takes_positions(),
    {
        self.payload.can_bind()
    }

    /// Whether [`bind_name`](BatchBuilder::bind_name) may be called: no value
    /// is bound by position.
    pub fn can_bind_name(&self) -> (yes: bool)
        ensures
            yes == self@.bound.takes_names(),
    {
        self.payload.can_bind_name()
    }

    /// Binds all arguments of the lately added query at once: a vector of
    /// values, or a tuple.
    ///
    /// Not to be called after [`bind_name`](BatchBuilder::bind_name).
    pub fn bind<I: IntoValues>(self, values: I) -> (builder: BatchBuilder)
        requires
            self@.bound.takes_positions(),
            values.bound().wf(),
            values.bound().is_named() ==> self@.bound.values.len() == 0,
        ensures
            builder@ == (BatchDraft { bound: self@.bound.extended(values.bound()), ..self@ }),
            builder@.bound.wf(),
    {
        let mut this = self;
        this.payload.bind(values);
        this
    }

    /// Binds an argument of the lately added query at position `index`.
    /// Where the position is not there yet, the values are extended to it, and
    /// the positions between are [`Value::unset`].
    ///
    /// Not to be called after [`bind_name`](BatchBuilder::bind_name).
    pub fn bind_ith<T: IntoValue<types::Any>>(self, index: usize, value: T) -> (builder:
        BatchBuilder)
        requires
            self@.bound.takes_positions(),
            index < usize::MAX,
        ensures
            builder@ == (BatchDraft {
                bound: self@.bound.with_ith(index as int, value.encoded()),
                ..self@
            }),
            builder@.bound.wf(),
    {
        let mut this = self;
        this.payload.bind_ith(index, value);
        this
    }

    /// Binds `value` to `name` in the lately added query.
    ///
    /// Not to be mixed with [`bind`](BatchBuilder::bind) and
    /// [`bind_ith`](BatchBuilder::bind_ith).
    pub fn bind_name<T: IntoValue<types::Any>>(self, name: &str, value: T) -> (builder:
        BatchBuilder)
        requires
            self@.bound.takes_names(),
        ensures
            builder@ == (BatchDraft {
                bound: self@.bound.with_named(name@, value.encoded()),
                ..self@
            }),
            builder@.bound.wf(),
    {
        let mut this = self;
        this.payload.bind_name(name, value);
        this
    }

    /// Sets the keyspace every query in the batch will apply to.
    pub fn keyspace(self, keyspace: &str) -> (builder: BatchBuilder)
        ensures
            builder@ == (BatchDraft {
                settings: BatchSettings { keyspace: Some(keyspace@), ..self@.settings },
                ..self@
            }),
    {
        let mut this = self;
        this.parameters.keyspace = Some(keyspace.to_owned());
        this
    }

    /// Sets the consistency level of all queries in the batch.
    pub fn consistency(self, consistency: Consistency) -> (builder: BatchBuilder)
        ensures
            builder@ == (BatchDraft {
                settings: BatchSettings {
                    consistency: Some(consistency_code(consistency)),
                    ..self@.settings
                },
                ..self@
            }),
    {
        let mut this = self;
        this.parameters.consistency = Some(ConsistencyValue { value: i32::from(consistency) });
        this
    }

    /// Sets whether the server should collect tracing information about the
    /// execution of the batch.
    pub fn tracing(self, tracing: bool) -> (builder: BatchBuilder)
        ensures
            builder@ == (BatchDraft {
                settings: BatchSettings { tracing, ..self@.settings },
                ..self@
            }),
    {
        let mut this = self;
        this.parameters.tracing = tracing;
        this
    }

    /// Sets the query timestamp, in microseconds.
    pub fn timestamp(self, timestamp: i64) -> (builder: BatchBuilder)
        ensures
            builder@ == (BatchDraft {
                settings: BatchSettings { timestamp: Some(timestamp), ..self@.settings },
                ..self@
            }),
    {
        let mut this = self;
        this.parameters.timestamp = Some(timestamp);
        this
    }

    /// Sets the serial consistency level, for lightweight transactions.
    pub fn serial_consistency(self, consistency: Consistency) -> (builder: BatchBuilder)
        ensures
            builder@ == (BatchDraft {
                settings: BatchSettings {
                    serial_consistency: Some(consistency_code(consistency)),
                    ..self@.settings
                },
                ..self@
            }),
    {
        let mut this = self;
        this.parameters.serial_consistency = Some(
            ConsistencyValue { value: i32::from(consistency) },
        );
        this
    }

    /// Sets all settings of the batch at once, in place of any that were set
    /// before.
    pub fn parameters(self, parameters: BatchParameters) -> (builder: BatchBuilder)
        ensures
            builder@ == (BatchDraft { settings: parameters@, ..self@ }),
    {
        let mut this = self;
        this.parameters = parameters;
        this
    }

    /// Completes the last query and returns the batch: the statements in the
    /// order in which they were added, each with its own parameters, and the
    /// settings.
    pub fn build(self) -> (batch: Batch)
        ensures
            batch@ == (BatchView {
                batch_type: 0,
                statements: self@.finalized().statements,
                settings: Some(self@.settings),
            }),
    {
        let mut this = self;
        this.finalize_query();
        Batch { batch_type: 0, queries: this.built_queries, parameters: Some(this.parameters) }
    }

    /// Completes the statement that is being built: it joins the statements
    /// of the batch with all that is bound, and nothing stays bound for the
    /// next one. Where no statement is being built, nothing changes.
    pub fn finalize_query(&mut self)
        ensures
            final(self)@ == old(self)@.finalized(),
            old(self)@.bound.wf() ==> final(self)@.bound.wf(),
    {
        let mut pending: Option<String> = None;
        core::mem::swap(&mut self.cql, &mut pending);
        if let Some(cql) = pending {
            let ghost before = self.built_queries@;
            let ghost bound = self.payload@;
            let values = self.payload.build();
            self.built_queries.push(BatchQuery { cql, values });
            proof {
                assert(statements_of(self.built_queries@) =~= statements_of(before).push(
                    BatchStatement { cql: cql@, values: handed_out(bound) },
                ));
            }
        }
    }
}

impl Default for BatchBuilder {
    fn default() -> (builder: BatchBuilder)
        ensures
            builder@ == (BatchDraft {
                cql: None,
                bound: Bound::none(),
                settings: BatchSettings::server_defaults(),
                statements: Seq::empty(),
            }),
    {
        BatchBuilder::new()
    }
}

impl Batch {
    /// Returns a fresh builder for building a batch of queries.
    pub fn builder() -> (builder: BatchBuilder)
        ensures
            builder@ == (BatchDraft {
                cql: None,
                bound: Bound::none(),
                settings: BatchSettings::server_defaults(),
                statements: Seq::empty(),
            }),
    {
        BatchBuilder::new()
    }
}

} // verus!
