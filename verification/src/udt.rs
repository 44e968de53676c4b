//! The fields of a user defined type, found by name.
//!
//! A [`UdtValue`] keeps its fields in a vector. The functions here treat it
//! as a map from names to values: a field is found under the first entry that
//! bears its name, [`UdtValue::insert`] never adds a name twice, and
//! [`Value::udt`] builds a value in which no name occurs twice.
//!
//! The vector stands where a hash map keyed by strings could: of such a map
//! nothing could be proved, for the model of a hash map holds only of keys
//! whose hashes obey the key model, which is not known of `String`. Names are
//! compared as text, one by one.
use crate::into_value::IntoValue;
use crate::proto::{UdtValue, Value};
use crate::types;
use crate::wire::{named_wires_of, Wire};
use vstd::prelude::*;

verus! {

/// The position of the first field named `name`; the number of fields where
/// there is none.
pub open spec fn first_named(fields: Seq<(Seq<char>, Wire)>, name: Seq<char>) -> int
    decreases fields.len(),
{
    if fields.len() == 0 {
        0
    } else if fields[0].0 == name {
        0
    } else {
        1 + first_named(fields.drop_first(), name)
    }
}

/// The value of the field named `name`.
pub open spec fn field_of(fields: Seq<(Seq<char>, Wire)>, name: Seq<char>) -> Option<Wire> {
    let i = first_named(fields, name);
    if i < fields.len() {
        Some(fields[i].1)
    } else {
        None
    }
}

/// The fields with `name` set to `w`: in the place of the first field of that
/// name, or at the end where there is none.
pub open spec fn upsert(fields: Seq<(Seq<char>, Wire)>, name: Seq<char>, w: Wire) -> Seq<
    (Seq<char>, Wire),
> {
    let i = first_named(fields, name);
    if i < fields.len() {
        fields.update(i, (name, w))
    } else {
        fields.push((name, w))
    }
}

/// The fields that a list of entries makes: each name once, in the order in
/// which the names first occur, each with the value of its last entry.
pub open spec fn collected(entries: Seq<(Seq<char>, Wire)>) -> Seq<(Seq<char>, Wire)>
    decreases entries.len(),
{
    if entries.len() == 0 {
        Seq::empty()
    } else {
        upsert(collected(entries.drop_last()), entries.last().0, entries.last().1)
    }
}

/// Whether no name occurs twice.
pub open spec fn distinct_names(fields: Seq<(Seq<char>, Wire)>) -> bool {
    forall|i: int, j: int|
        0 <= i < j < fields.len() ==> (#[trigger] fields[i]).0 != (#[trigger] fields[j]).0
}

/// `first_named` is the least position that bears the name.
pub proof fn lemma_first_named(fields: Seq<(Seq<char>, Wire)>, name: Seq<char>)
    ensures
        0 <= first_named(fields, name) <= fields.len(),
        first_named(fields, name) < fields.len() ==> fields[first_named(fields, name)].0 == name,
        forall|j: int| 0 <= j < first_named(fields, name) ==> (#[trigger] fields[j]).0 != name,
    decreases fields.len(),
{
    if fields.len() > 0 && fields[0].0 != name {
        let rest = fields.drop_first();
        lemma_first_named(rest, name);
        assert forall|j: int| 0 <= j < first_named(fields, name) implies (#[trigger] fields[j]).0
            != name by {
            if j > 0 {
                assert(fields[j] == rest[j - 1]);
            }
        }
    }
}

/// A position that bears the name, with none before it, is `first_named`.
pub proof fn lemma_first_named_is(fields: Seq<(Seq<char>, Wire)>, name: Seq<char>, at: int)
    requires
        0 <= at <= fields.len(),
        at < fields.len() ==> fields[at].0 == name,
        forall|j: int| 0 <= j < at ==> (#[trigger] fields[j]).0 != name,
    ensures
        first_named(fields, name) == at,
{
    lemma_first_named(fields, name);
    let f = first_named(fields, name);
    if f < at {
        assert(fields[f].0 != name);
    }
}

/// Setting a field keeps the names distinct.
pub proof fn lemma_upsert_distinct(fields: Seq<(Seq<char>, Wire)>, name: Seq<char>, w: Wire)
    requires
        distinct_names(fields),
    ensures
        distinct_names(upsert(fields, name, w)),
        field_of(upsert(fields, name, w), name) == Some(w),
{
    lemma_first_named(fields, name);
    let i = first_named(fields, name);
    let after = upsert(fields, name, w);
    assert forall|a: int, b: int| 0 <= a < b < after.len() implies (#[trigger] after[a]).0 != (
    #[trigger] after[b]).0 by {
        if i < fields.len() {
            assert(after[a].0 == fields[a].0);
            assert(after[b].0 == fields[b].0);
        } else {
            if b < fields.len() {
                assert(after[a] == fields[a]);
                assert(after[b] == fields[b]);
            } else {
                assert(after[a] == fields[a]);
            }
        }
    }
    assert forall|j: int| 0 <= j < i implies (#[trigger] after[j]).0 != name by {
        assert(after[j].0 == fields[j].0);
    }
    lemma_first_named_is(after, name, i);
}

/// Taking a field out keeps the names distinct.
pub proof fn lemma_remove_distinct(fields: Seq<(Seq<char>, Wire)>, at: int)
    requires
        distinct_names(fields),
        0 <= at < fields.len(),
    ensures
        distinct_names(fields.remove(at)),
{
    let after = fields.remove(at);
    assert forall|i: int, j: int| 0 <= i < j < after.len() implies (#[trigger] after[i]).0 != (
    #[trigger] after[j]).0 by {
        let a = if i < at {
            i
        } else {
            i + 1
        };
        let b = if j < at {
            j
        } else {
            j + 1
        };
        assert(after[i] == fields[a]);
        assert(after[j] == fields[b]);
    }
}

/// What a list of entries makes has no name twice.
pub proof fn lemma_collected_distinct(entries: Seq<(Seq<char>, Wire)>)
    ensures
        distinct_names(collected(entries)),
    decreases entries.len(),
{
    if entries.len() > 0 {
        lemma_collected_distinct(entries.drop_last());
        lemma_upsert_distinct(
            collected(entries.drop_last()),
            entries.last().0,
            entries.last().1,
        );
    }
}

/// Entries of which no name occurs twice make the fields that they are.
pub proof fn lemma_collected_of_distinct(entries: Seq<(Seq<char>, Wire)>)
    requires
        distinct_names(entries),
    ensures
        collected(entries) == entries,
    decreases entries.len(),
{
    if entries.len() > 0 {
        let front = entries.drop_last();
        assert(forall|i: int| 0 <= i < front.len() ==> front[i] == entries[i]);
        lemma_collected_of_distinct(front);
        assert forall|j: int| 0 <= j < front.len() implies (#[trigger] front[j]).0
            != entries.last().0 by {
            assert(front[j] == entries[j]);
            assert(entries[j].0 != entries[entries.len() - 1].0);
        }
        lemma_first_named_is(front, entries.last().0, front.len() as int);
        assert(front.push(entries.last()) =~= entries);
    } else {
        assert(collected(entries) =~= entries);
    }
}

/// The position of the first field named `name`.
fn position(fields: &Vec<(String, Value)>, name: &String) -> (at: usize)
    ensures
        at == first_named(named_wires_of(fields@), name@),
        at <= fields@.len(),
{
    let n = fields.len();
    let mut i: usize = 0;
    while i < n
        invariant
            i <= n,
            n == fields@.len(),
            forall|j: int| 0 <= j < i ==> (#[trigger] named_wires_of(fields@)[j]).0 != name@,
        decreases n - i,
    {
        if fields[i].0 == *name {
            proof {
                lemma_first_named_is(named_wires_of(fields@), name@, i as int);
            }
            return i;
        }
        i += 1;
    }
    proof {
        lemma_first_named_is(named_wires_of(fields@), name@, n as int);
    }
    n
}

impl UdtValue {
    /// The model of the fields: names and values, in order.
    pub open spec fn view(&self) -> Seq<(Seq<char>, Wire)> {
        named_wires_of(self.fields@)
    }

    /// Whether no name occurs twice among the fields. A value that is built
    /// with [`new`](UdtValue::new) and [`insert`](UdtValue::insert) has it so,
    /// and [`remove`](UdtValue::remove) keeps it so.
    pub open spec fn wf(&self) -> bool {
        distinct_names(self@)
    }

    /// A value without fields.
    pub fn new() -> (udt: UdtValue)
        ensures
            udt@ == Seq::<(Seq<char>, Wire)>::empty(),
            udt.wf(),
    {
        let udt = UdtValue { fields: Vec::new() };
        assert(udt@ =~= Seq::<(Seq<char>, Wire)>::empty());
        udt
    }

    /// The value of the field named `name`.
    pub fn get(&self, name: &str) -> (found: Option<&Value>)
        ensures
            match found {
                Some(value) => field_of(self@, name@) == Some(value@),
                None => field_of(self@, name@) is None,
            },
    {
        let at = position(&self.fields, &name.to_owned());
        if at < self.fields.len() {
            Some(&self.fields[at].1)
        } else {
            None
        }
    }

    /// Takes the field named `name` out. The other fields keep their order.
    pub fn remove(&mut self, name: &str) -> (removed: Option<Value>)
        ensures
            match removed {
                Some(value) => field_of(old(self)@, name@) == Some(value@) && final(self)@ == old(
                    self,
                )@.remove(first_named(old(self)@, name@)),
                None => field_of(old(self)@, name@) is None && final(self)@ == old(self)@,
            },
            distinct_names(old(self)@) ==> distinct_names(final(self)@),
    {
        let at = position(&self.fields, &name.to_owned());
        if at < self.fields.len() {
            let (_, value) = self.fields.remove(at);
            assert(self@ =~= old(self)@.remove(at as int));
            proof {
                if distinct_names(old(self)@) {
                    lemma_remove_distinct(old(self)@, at as int);
                }
            }
            Some(value)
        } else {
            None
        }
    }

    /// Sets the field named `name`: in the place of the first field of that
    /// name, whose value is returned, or at the end where there is none.
    pub fn insert(&mut self, name: String, value: Value) -> (replaced: Option<Value>)
        ensures
            final(self)@ == upsert(old(self)@, name@, value@),
            match replaced {
                Some(before) => field_of(old(self)@, name@) == Some(before@),
                None => field_of(old(self)@, name@) is None,
            },
            distinct_names(old(self)@) ==> distinct_names(final(self)@),
    {
        proof {
            if distinct_names(old(self)@) {
                lemma_upsert_distinct(old(self)@, name@, value@);
            }
        }
        let at = position(&self.fields, &name);
        if at < self.fields.len() {
            let mut entry = (name, value);
            core::mem::swap(&mut self.fields[at], &mut entry);
            assert(self@ =~= upsert(old(self)@, name@, value@));
            Some(entry.1)
        } else {
            self.fields.push((name, value));
            assert(self@ =~= upsert(old(self)@, name@, value@));
            None
        }
    }
}

/// The names of the entries with what their values yield, in order.
pub open spec fn encoded_entries<V: IntoValue<types::Any>>(entries: Seq<(&str, V)>) -> Seq<
    (Seq<char>, Wire),
> {
    Seq::new(entries.len(), |i: int| (entries[i].0@, entries[i].1.encoded()))
}

impl Value {
    /// Converts named values into a CQL value of a user defined type. Each
    /// value goes to the default of its type.
    ///
    /// Each name becomes one field, in the order in which the names first
    /// occur. Where a name occurs more than once, its last value stays.
    pub fn udt<V: IntoValue<types::Any>>(fields: Vec<(&str, V)>) -> (v: Value)
        ensures
            v@ == Wire::Udt(collected(encoded_entries(fields@))),
            distinct_names(collected(encoded_entries(fields@))),
    {
        let ghost all = fields@;
        let mut udt = UdtValue::new();
        assert(encoded_entries(all).take(0) =~= Seq::<(Seq<char>, Wire)>::empty());
        for entry in it: fields.into_iter()
            invariant
                it.seq() == all,
                udt@ == collected(encoded_entries(all).take(it.index() as int)),
        {
            let ghost k = it.index() as int;
            let (name, value) = entry;
            proof {
                let entries = encoded_entries(all);
                assert(entries.take(k + 1).drop_last() == entries.take(k));
                assert(entries.take(k + 1).last() == (name@, value.encoded()));
            }
            udt.insert(name.to_owned(), value.into_value());
        }
        proof {
            let entries = encoded_entries(all);
            assert(entries.take(entries.len() as int) == entries);
            lemma_collected_distinct(entries);
        }
        Value::raw_udt(udt.fields)
    }
}

} // verus!
