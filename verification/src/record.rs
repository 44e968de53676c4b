//! Records: Rust structs that are written to and read from user defined
//! types, rows and named parameters.
//!
//! A record type describes its fields once, as a list of [`FieldSpec`]: the
//! name of each field, the name it has on the other side where that differs,
//! and whether it is left out. What stands in for a field without a value is
//! a [`DefaultPolicy`], given where the field is read.
//!
//! Writing: the values of the fields, each under its name, make a user
//! defined type with [`Value::udt`](crate::Value::udt), and named parameters
//! with [`named_values`]. Reading:
//! [`try_take_field`](crate::proto::UdtValue::try_take_field) reads one field
//! of a user defined type, and [`Row::try_take_field`] one field of a row.
use crate::error::{ConversionError, Failure};
use crate::from_value::{take_at, TryFromValue};
use crate::proto::{Row, UdtValue, Value, Values};
use crate::query::Bound;
use crate::udt::{distinct_names, field_of, first_named};
use crate::wire::{texts_of, Wire};
use vstd::prelude::*;

verus! {

/// How one field of a record is mapped.
#[derive(Debug, Clone, PartialEq, Eq)]
pub struct FieldSpec {
    /// The name of the field in the Rust struct.
    pub ident: String,
    /// The name of the field, column or parameter on the other side, where it
    /// is not the name of the field in the struct.
    pub name: Option<String>,
    /// Whether the field is left out of the mapping.
    pub skip: bool,
}

impl FieldSpec {
    /// The name of the field on the other side: `name` where it is given, the
    /// name of the field in the struct where not.
    pub open spec fn remote_name(&self) -> Seq<char> {
        match self.name {
            Some(name) => name@,
            None => self.ident@,
        }
    }

    /// The name of the field on the other side.
    pub fn remote(&self) -> (name: &String)
        ensures
            name@ == self.remote_name(),
    {
        match &self.name {
            Some(name) => name,
            None => &self.ident,
        }
    }

    /// A field that is mapped under its own name.
    pub fn new(ident: &str) -> (field: FieldSpec)
        ensures
            field.ident@ == ident@,
            field.name is None,
            !field.skip,
    {
        FieldSpec { ident: ident.to_owned(), name: None, skip: false }
    }

    /// The same field under the name `name`.
    pub fn renamed(self, name: &str) -> (field: FieldSpec)
        ensures
            field.ident == self.ident,
            field.name matches Some(n) && n@ == name@,
            field.skip == self.skip,
    {
        FieldSpec { ident: self.ident, name: Some(name.to_owned()), skip: self.skip }
    }

    /// The same field, left out of the mapping.
    pub fn skipped(self) -> (field: FieldSpec)
        ensures
            field == (FieldSpec { skip: true, ..self }),
    {
        FieldSpec { ident: self.ident, name: self.name, skip: true }
    }
}

/// The names on the other side of the fields that are not left out, in the
/// order of the fields.
pub open spec fn remote_names(fields: Seq<FieldSpec>) -> Seq<Seq<char>>
    decreases fields.len(),
{
    if fields.len() == 0 {
        Seq::empty()
    } else if fields.last().skip {
        remote_names(fields.drop_last())
    } else {
        remote_names(fields.drop_last()).push(fields.last().remote_name())
    }
}

/// Lists the names of the fields of the associated user defined type, row or
/// parameters: one for each field that is not left out, in the order of the
/// fields.
pub fn field_names(fields: &Vec<FieldSpec>) -> (names: Vec<String>)
    ensures
        texts_of(names@) == remote_names(fields@),
{
    let mut names: Vec<String> = Vec::new();
    let mut i: usize = 0;
    assert(fields@.take(0) =~= Seq::<FieldSpec>::empty());
    assert(texts_of(names@) =~= Seq::<Seq<char>>::empty());
    while i < fields.len()
        invariant
            i <= fields@.len(),
            texts_of(names@) == remote_names(fields@.take(i as int)),
        decreases fields@.len() - i,
    {
        proof {
            assert(fields@.take(i + 1).drop_last() == fields@.take(i as int));
            assert(fields@.take(i + 1).last() == fields@[i as int]);
        }
        if !fields[i].skip {
            let ghost before = names@;
            names.push(fields[i].remote().clone());
            assert(texts_of(names@) =~= texts_of(before).push(fields@[i as int].remote_name()));
        }
        i += 1;
    }
    assert(fields@.take(i as int) == fields@);
    names
}

/// The names of the first `k` fields are the first of the names of all.
pub proof fn lemma_remote_names_grow(fields: Seq<FieldSpec>, k: int)
    requires
        0 <= k <= fields.len(),
    ensures
        remote_names(fields.take(k)).len() <= remote_names(fields).len(),
        forall|j: int|
            0 <= j < remote_names(fields.take(k)).len() ==> remote_names(fields)[j]
                == #[trigger] remote_names(fields.take(k))[j],
    decreases fields.len() - k,
{
    if k < fields.len() {
        let shorter = remote_names(fields.take(k));
        let longer = remote_names(fields.take(k + 1));
        assert(fields.take(k + 1).drop_last() == fields.take(k));
        let last = fields.take(k + 1).last();
        assert(longer == shorter || longer == shorter.push(last.remote_name()));
        lemma_remote_names_grow(fields, k + 1);
        assert forall|j: int| 0 <= j < shorter.len() implies remote_names(fields)[j]
            == #[trigger] shorter[j] by {
            assert(longer[j] == shorter[j]);
        }
    } else {
        assert(fields.take(k) == fields);
    }
}

/// The slot of the field `i`: its place among the fields that are not left
/// out, which is the place of its name in [`remote_names`], of its value in
/// what is written, and of its column among the positions of a row. A field
/// that is left out has none.
pub open spec fn slot_of(fields: Seq<FieldSpec>, i: int) -> Option<int> {
    if fields[i].skip {
        None
    } else {
        Some(remote_names(fields.take(i)).len() as int)
    }
}

/// The name at the slot of a field is the name of the field.
pub proof fn lemma_slot_names(fields: Seq<FieldSpec>, i: int)
    requires
        0 <= i < fields.len(),
        !fields[i].skip,
    ensures
        slot_of(fields, i) matches Some(slot) && 0 <= slot < remote_names(fields).len()
            && remote_names(fields)[slot] == fields[i].remote_name(),
{
    let slot = remote_names(fields.take(i)).len() as int;
    assert(fields.take(i + 1).drop_last() == fields.take(i));
    assert(fields.take(i + 1).last() == fields[i]);
    assert(remote_names(fields.take(i + 1)) == remote_names(fields.take(i)).push(
        fields[i].remote_name(),
    ));
    lemma_remote_names_grow(fields, i + 1);
    assert(remote_names(fields.take(i + 1))[slot] == fields[i].remote_name());
}

/// Gives each field its slot: its place among the fields that are not left
/// out, and none to a field that is left out.
pub fn field_slots(fields: &Vec<FieldSpec>) -> (slots: Vec<Option<usize>>)
    ensures
        slots@.len() == fields@.len(),
        forall|i: int|
            0 <= i < fields@.len() ==> match #[trigger] slots@[i] {
                Some(slot) => slot_of(fields@, i) == Some(slot as int),
                None => slot_of(fields@, i) is None,
            },
{
    let mut slots: Vec<Option<usize>> = Vec::new();
    let mut next: usize = 0;
    let mut i: usize = 0;
    assert(fields@.take(0) =~= Seq::<FieldSpec>::empty());
    while i < fields.len()
        invariant
            i <= fields@.len(),
            slots@.len() == i,
            next <= i,
            next == remote_names(fields@.take(i as int)).len(),
            forall|j: int|
                0 <= j < i ==> match #[trigger] slots@[j] {
                    Some(slot) => slot_of(fields@, j) == Some(slot as int),
                    None => slot_of(fields@, j) is None,
                },
        decreases fields@.len() - i,
    {
        proof {
            assert(fields@.take(i + 1).drop_last() == fields@.take(i as int));
            assert(fields@.take(i + 1).last() == fields@[i as int]);
        }
        if fields[i].skip {
            slots.push(None);
        } else {
            slots.push(Some(next));
            next += 1;
        }
        i += 1;
    }
    slots
}

/// The names of the entries, in order.
pub open spec fn names_of(fields: Seq<(&str, Value)>) -> Seq<Seq<char>> {
    Seq::new(fields.len(), |i: int| fields[i].0@)
}

/// The values of the entries, in order.
pub open spec fn values_of(fields: Seq<(&str, Value)>) -> Seq<Wire> {
    Seq::new(fields.len(), |i: int| fields[i].1@)
}

/// Parameters bound by name: each value under its name, in order. A record
/// binds its fields with this.
pub fn named_values(fields: Vec<(&str, Value)>) -> (values: Values)
    ensures
        values@ == (Bound { values: values_of(fields@), names: names_of(fields@) }),
        values@.wf(),
{
    let ghost all = fields@;
    let mut values: Vec<Value> = Vec::new();
    let mut value_names: Vec<String> = Vec::new();
    for entry in it: fields.into_iter()
        invariant
            it.seq() == all,
            values@.len() == it.index(),
            value_names@.len() == it.index(),
            forall|j: int| 0 <= j < it.index() ==> (#[trigger] values@[j])@ == all[j].1@,
            forall|j: int| 0 <= j < it.index() ==> (#[trigger] value_names@[j])@ == all[j].0@,
    {
        let (name, value) = entry;
        value_names.push(name.to_owned());
        values.push(value);
    }
    let bound = Values { values, value_names };
    proof {
        assert(bound@.values =~= values_of(all));
        assert(bound@.names =~= names_of(all));
    }
    bound
}

/// What stands in for a field that has no value: that is absent, or `null`,
/// or `unset`.
pub enum DefaultPolicy<T> {
    /// Nothing: the field must have a value.
    NoDefault,
    /// This value.
    Value(T),
}

impl<T> DefaultPolicy<T> {
    /// The field must have a value.
    pub fn none() -> (policy: DefaultPolicy<T>)
        ensures
            policy is NoDefault,
    {
        DefaultPolicy::NoDefault
    }

    /// The given value stands in.
    pub fn explicit(value: T) -> (policy: DefaultPolicy<T>)
        ensures
            policy == DefaultPolicy::Value(value),
    {
        DefaultPolicy::Value(value)
    }
}

impl<T: Default> DefaultPolicy<T> {
    /// The default of the type stands in, as `T::default()` makes it.
    pub fn implicit() -> (policy: DefaultPolicy<T>)
        ensures
            policy matches DefaultPolicy::Value(value) && call_ensures(T::default, (), value),
    {
        DefaultPolicy::Value(T::default())
    }
}

/// What a field without a value becomes under `policy`.
pub open spec fn fallback<T: TryFromValue>(policy: DefaultPolicy<T>, name: Seq<char>) -> Result<
    T::Model,
    Failure,
> {
    match policy {
        DefaultPolicy::NoDefault => Err(Failure::FieldNotFound(name)),
        DefaultPolicy::Value(x) => Ok(x.model()),
    }
}

/// What reading a field yields: the conversion of its value, where it has
/// one; what `policy` gives, where it has none; the failure of the
/// conversion, where the value does not convert.
pub open spec fn field_read<T: TryFromValue>(
    w: Option<Wire>,
    policy: DefaultPolicy<T>,
    name: Seq<char>,
) -> Result<T::Model, Failure> {
    match w {
        None => fallback(policy, name),
        Some(w) => if w.is_absent() {
            fallback(policy, name)
        } else {
            T::decoded(w)
        },
    }
}

/// Whether `x` is read from a field under `policy`: made from the value of
/// the field, where it has one; the value of the policy, where it has none.
pub open spec fn field_made_from<T: TryFromValue>(
    x: T,
    w: Option<Wire>,
    policy: DefaultPolicy<T>,
) -> bool {
    if w is Some && !w->Some_0.is_absent() {
        x.made_from(w->Some_0)
    } else {
        policy == DefaultPolicy::Value(x)
    }
}

/// Applies `policy` to what was found of the field named `name`.
fn or_fallback<T: TryFromValue>(
    found: Option<T>,
    policy: DefaultPolicy<T>,
    name: &str,
    target: &str,
) -> (r: Result<T, ConversionError>)
    ensures
        match (found, r) {
            (Some(x), Ok(y)) => x == y,
            (None, Ok(y)) => policy == DefaultPolicy::Value(y),
            (None, Err(e)) => fallback(policy, name@) == Err::<T::Model, Failure>(e.kind@),
            _ => false,
        },
{
    match found {
        Some(x) => Ok(x),
        None => match policy {
            DefaultPolicy::Value(x) => Ok(x),
            DefaultPolicy::NoDefault => Err(ConversionError::field_not_found(name, target, name)),
        },
    }
}

impl UdtValue {
    /// Takes the field named `name` out and converts it to the desired type.
    ///
    /// Where the field is absent, or `null`, or `unset`, `policy` decides:
    /// its value stands in, or the field is not found. A value that does not
    /// convert fails as its conversion does.
    pub fn try_take_field<T: TryFromValue>(&mut self, name: &str, policy: DefaultPolicy<T>) -> (r:
        Result<T, ConversionError>)
        ensures
            match r {
                Ok(x) => field_read(field_of(old(self)@, name@), policy, name@) == Ok::<
                    T::Model,
                    Failure,
                >(x.model()) && field_made_from(x, field_of(old(self)@, name@), policy),
                Err(e) => field_read(field_of(old(self)@, name@), policy, name@) == Err::<
                    T::Model,
                    Failure,
                >(e.kind@),
            },
            field_of(old(self)@, name@) is Some ==> final(self)@ == old(self)@.remove(
                first_named(old(self)@, name@),
            ),
            field_of(old(self)@, name@) is None ==> final(self)@ == old(self)@,
            distinct_names(old(self)@) ==> distinct_names(final(self)@),
    {
        match self.remove(name) {
            Some(value) => {
                match <Option<T> as TryFromValue>::try_from(value) {
                    Ok(found) => or_fallback(found, policy, name, "field of a record"),
                    Err(e) => Err(e),
                }
            },
            None => or_fallback(None, policy, name, "field of a record"),
        }
    }
}

impl Row {
    /// Takes the value at `at`, the value of the field named `name`, out of
    /// the row and converts it to the desired type.
    ///
    /// Where the value is `null` or `unset`, or was taken before, `policy`
    /// decides: its value stands in, or the field is not found. A value that
    /// does not convert fails as its conversion does.
    pub fn try_take_field<T: TryFromValue>(
        &mut self,
        at: usize,
        name: &str,
        policy: DefaultPolicy<T>,
    ) -> (r: Result<T, ConversionError>)
        requires
            at < old(self).values@.len(),
        ensures
            match r {
                Ok(x) => field_read(Some(old(self).values@[at as int]@), policy, name@) == Ok::<
                    T::Model,
                    Failure,
                >(x.model()) && field_made_from(
                    x,
                    Some(old(self).values@[at as int]@),
                    policy,
                ),
                Err(e) => field_read(Some(old(self).values@[at as int]@), policy, name@) == Err::<
                    T::Model,
                    Failure,
                >(e.kind@),
            },
            final(self).values@ == old(self).values@.update(at as int, Value { inner: None }),
    {
        match <Option<T> as TryFromValue>::try_from(take_at(&mut self.values, at)) {
            Ok(found) => or_fallback(found, policy, name, "field of a record"),
            Err(e) => Err(e),
        }
    }
}

} // verus!
