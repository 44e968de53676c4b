//! The mathematical model of a [`Value`].
use crate::proto::value::Inner;
use crate::proto::{Collection, Decimal, Inet, UdtValue, Uuid, Value, Varint};
use vstd::prelude::*;

verus! {

/// What a [`Value`] holds, as mathematics: the view of a value.
pub enum Wire {
    /// A value without a variant.
    Empty,
    Null,
    Unset,
    Boolean(bool),
    Int(i64),
    /// The bit pattern of a 32-bit IEEE 754 number.
    Float(u32),
    /// The bit pattern of a 64-bit IEEE 754 number.
    Double(u64),
    Date(u32),
    Time(u64),
    Bytes(Seq<u8>),
    Varint(Seq<u8>),
    Decimal { scale: u32, unscaled: Seq<u8> },
    Uuid(Seq<u8>),
    Inet(Seq<u8>),
    String(Seq<char>),
    Collection(Seq<Wire>),
    /// The fields in their order, each with its name.
    Udt(Seq<(Seq<char>, Wire)>),
}

impl Wire {
    /// Whether a value stands for "nothing here": `null`, `unset`, or no
    /// variant at all.
    pub open spec fn is_absent(self) -> bool {
        self is Empty || self is Null || self is Unset
    }
}

/// The model of a value.
pub open spec fn wire_of(v: Value) -> Wire
    decreases v,
{
    match v.inner {
        None => Wire::Empty,
        Some(Inner::Null(_)) => Wire::Null,
        Some(Inner::Unset(_)) => Wire::Unset,
        Some(Inner::Int(x)) => Wire::Int(x),
        Some(Inner::Float(x)) => Wire::Float(x.0),
        Some(Inner::Double(x)) => Wire::Double(x.0),
        Some(Inner::Boolean(x)) => Wire::Boolean(x),
        Some(Inner::String(s)) => Wire::String(s@),
        Some(Inner::Bytes(b)) => Wire::Bytes(b@),
        Some(Inner::Inet(x)) => Wire::Inet(x.value@),
        Some(Inner::Uuid(x)) => Wire::Uuid(x.value@),
        Some(Inner::Date(x)) => Wire::Date(x),
        Some(Inner::Time(x)) => Wire::Time(x),
        Some(Inner::Collection(c)) => Wire::Collection(
            Seq::new(
                c.elements@.len(),
                |i: int|
                    if 0 <= i < c.elements@.len() {
                        wire_of(c.elements@[i])
                    } else {
                        Wire::Empty
                    },
            ),
        ),
        Some(Inner::Udt(u)) => Wire::Udt(
            Seq::new(
                u.fields@.len(),
                |i: int|
                    if 0 <= i < u.fields@.len() {
                        (u.fields@[i].0@, wire_of(u.fields@[i].1))
                    } else {
                        (Seq::empty(), Wire::Empty)
                    },
            ),
        ),
        Some(Inner::Varint(x)) => Wire::Varint(x.value@),
        Some(Inner::Decimal(x)) => Wire::Decimal { scale: x.scale, unscaled: x.value@ },
    }
}

impl View for Value {
    type V = Wire;

    open spec fn view(&self) -> Wire {
        wire_of(*self)
    }
}

impl Clone for Value {
    /// A deep copy: it holds what this value holds.
    fn clone(&self) -> (copy: Value)
        ensures
            copy@ == self@,
        decreases self,
    {
        let inner = match &self.inner {
            None => None,
            Some(Inner::Null(x)) => Some(Inner::Null(*x)),
            Some(Inner::Unset(x)) => Some(Inner::Unset(*x)),
            Some(Inner::Int(x)) => Some(Inner::Int(*x)),
            Some(Inner::Float(x)) => Some(Inner::Float(*x)),
            Some(Inner::Double(x)) => Some(Inner::Double(*x)),
            Some(Inner::Boolean(x)) => Some(Inner::Boolean(*x)),
            Some(Inner::String(s)) => Some(Inner::String(s.clone())),
            Some(Inner::Bytes(b)) => Some(Inner::Bytes(b.clone())),
            Some(Inner::Inet(x)) => Some(Inner::Inet(Inet { value: x.value.clone() })),
            Some(Inner::Uuid(x)) => Some(Inner::Uuid(Uuid { value: x.value.clone() })),
            Some(Inner::Date(x)) => Some(Inner::Date(*x)),
            Some(Inner::Time(x)) => Some(Inner::Time(*x)),
            Some(Inner::Collection(c)) => {
                let mut elements: Vec<Value> = Vec::new();
                let n = c.elements.len();
                let mut i: usize = 0;
                while i < n
                    invariant
                        i <= n,
                        n == c.elements@.len(),
                        self.inner == Some(Inner::Collection(*c)),
                        elements@.len() == i,
                        forall|j: int| 0 <= j < i ==> (#[trigger] elements@[j])@ == c.elements@[j]@,
                    decreases n - i,
                {
                    proof {
                        vstd::std_specs::vec::axiom_vec_index_decreases(c.elements, i as int);
                        let inner = self.inner->Some_0;
                        assert(decreases_to!(self.inner => inner));
                        assert(decreases_to!(inner => inner->Collection_0));
                    }
                    elements.push(c.elements[i].clone());
                    i += 1;
                }
                Some(Inner::Collection(Collection { elements }))
            },
            Some(Inner::Udt(u)) => {
                let mut fields: Vec<(String, Value)> = Vec::new();
                let n = u.fields.len();
                let mut i: usize = 0;
                while i < n
                    invariant
                        i <= n,
                        n == u.fields@.len(),
                        self.inner == Some(Inner::Udt(*u)),
                        fields@.len() == i,
                        forall|j: int|
                            0 <= j < i ==> (#[trigger] fields@[j]).0@ == u.fields@[j].0@
                                && fields@[j].1@ == u.fields@[j].1@,
                    decreases n - i,
                {
                    proof {
                        vstd::std_specs::vec::axiom_vec_index_decreases(u.fields, i as int);
                        let inner = self.inner->Some_0;
                        assert(decreases_to!(self.inner => inner));
                        assert(decreases_to!(inner => inner->Udt_0));
                        assert(decreases_to!(u.fields[i as int] => u.fields[i as int].1));
                    }
                    fields.push((u.fields[i].0.clone(), u.fields[i].1.clone()));
                    i += 1;
                }
                Some(Inner::Udt(UdtValue { fields }))
            },
            Some(Inner::Varint(x)) => Some(Inner::Varint(Varint { value: x.value.clone() })),
            Some(Inner::Decimal(x)) => Some(
                Inner::Decimal(Decimal { scale: x.scale, value: x.value.clone() }),
            ),
        };
        let copy = Value { inner };
        proof {
            match self.inner {
                Some(Inner::Collection(_)) => {
                    lemma_collection_view(copy);
                    lemma_collection_view(*self);
                    assert(wires_of(copy.inner->Some_0->Collection_0.elements@) =~= wires_of(
                        self.inner->Some_0->Collection_0.elements@,
                    ));
                },
                Some(Inner::Udt(_)) => {
                    lemma_udt_view(copy);
                    lemma_udt_view(*self);
                    assert(named_wires_of(copy.inner->Some_0->Udt_0.fields@) =~= named_wires_of(
                        self.inner->Some_0->Udt_0.fields@,
                    ));
                },
                _ => {},
            }
        }
        copy
    }
}

/// The models of a sequence of values, in order.
pub open spec fn wires_of(values: Seq<Value>) -> Seq<Wire> {
    Seq::new(values.len(), |i: int| values[i]@)
}

/// The models of named values, in order.
pub open spec fn named_wires_of(fields: Seq<(String, Value)>) -> Seq<(Seq<char>, Wire)> {
    Seq::new(fields.len(), |i: int| (fields[i].0@, fields[i].1@))
}

/// The views of a sequence of strings, in order.
pub open spec fn texts_of(names: Seq<String>) -> Seq<Seq<char>> {
    Seq::new(names.len(), |i: int| names[i]@)
}

/// The model of a collection is the models of its elements.
pub proof fn lemma_collection_view(v: Value)
    requires
        v.inner matches Some(Inner::Collection(_)),
    ensures
        v@ == Wire::Collection(wires_of(v.inner->Some_0->Collection_0.elements@)),
{
    let c = v.inner->Some_0->Collection_0;
    assert(v@->Collection_0 =~= wires_of(c.elements@));
}

/// The model of a user defined type is the models of its fields.
pub proof fn lemma_udt_view(v: Value)
    requires
        v.inner matches Some(Inner::Udt(_)),
    ensures
        v@ == Wire::Udt(named_wires_of(v.inner->Some_0->Udt_0.fields@)),
{
    let u = v.inner->Some_0->Udt_0;
    assert(v@->Udt_0 =~= named_wires_of(u.fields@));
}

} // verus!

