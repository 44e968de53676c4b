//! Conversions to options, vectors and vectors of key-value pairs.
use super::{collection_items, TryFromValue};
use crate::error::{ConversionError, Failure};
use crate::proto::value::Inner;
use crate::proto::Value;
use crate::wire::{wires_of, Wire};
use crate::KeyValue;
use vstd::prelude::*;

verus! {

/// `null`, `unset` and a value without a variant become `None`. A value that
/// is there converts as `T` does, and fails as `T` does.
impl<T: TryFromValue> TryFromValue for Option<T> {
    type Model = Option<T::Model>;

    open spec fn model(&self) -> Option<T::Model> {
        match self {
            Some(x) => Some(x.model()),
            None => None,
        }
    }

    open spec fn decoded(w: Wire) -> Result<Option<T::Model>, Failure> {
        if w.is_absent() {
            Ok(None)
        } else {
            match T::decoded(w) {
                Ok(x) => Ok(Some(x)),
                Err(e) => Err(e),
            }
        }
    }

    open spec fn made_from(&self, w: Wire) -> bool {
        match self {
            Some(x) => x.made_from(w),
            None => true,
        }
    }

    fn try_from(value: Value) -> (r: Result<Self, ConversionError>) {
        match &value.inner {
            None => Ok(None),
            Some(Inner::Null(_)) => Ok(None),
            Some(Inner::Unset(_)) => Ok(None),
            Some(_) => match T::try_from(value) {
                Ok(x) => Ok(Some(x)),
                Err(e) => Err(e),
            },
        }
    }
}

/// The models of a sequence of Rust values, in order.
pub open spec fn models_of<T: TryFromValue>(items: Seq<T>) -> Seq<T::Model> {
    Seq::new(items.len(), |i: int| items[i].model())
}

/// What converting the items one by one yields: all the results in order, or
/// the failure of the first item that fails.
pub open spec fn decoded_seq<T: TryFromValue>(ws: Seq<Wire>) -> Result<Seq<T::Model>, Failure>
    decreases ws.len(),
{
    if ws.len() == 0 {
        Ok(Seq::empty())
    } else {
        match decoded_seq::<T>(ws.drop_last()) {
            Err(e) => Err(e),
            Ok(xs) => match T::decoded(ws.last()) {
                Err(e) => Err(e),
                Ok(x) => Ok(xs.push(x)),
            },
        }
    }
}

/// A failure among the first `k` items is the failure of the whole.
pub proof fn lemma_decoded_seq_fails_early<T: TryFromValue>(ws: Seq<Wire>, k: int)
    requires
        0 <= k <= ws.len(),
        decoded_seq::<T>(ws.take(k)) is Err,
    ensures
        decoded_seq::<T>(ws) == decoded_seq::<T>(ws.take(k)),
    decreases ws.len() - k,
{
    if k < ws.len() {
        assert(ws.take(k + 1).drop_last() == ws.take(k));
        lemma_decoded_seq_fails_early::<T>(ws, k + 1);
    } else {
        assert(ws.take(k) == ws);
    }
}

/// Converting succeeds exactly where every item converts, and then item by
/// item.
pub proof fn lemma_decoded_seq_pointwise<T: TryFromValue>(ws: Seq<Wire>)
    ensures
        decoded_seq::<T>(ws) is Ok <==> forall|i: int|
            0 <= i < ws.len() ==> (#[trigger] T::decoded(ws[i])) is Ok,
        decoded_seq::<T>(ws) matches Ok(xs) ==> xs.len() == ws.len() && forall|i: int|
            0 <= i < ws.len() ==> T::decoded(ws[i]) == Ok::<T::Model, Failure>(#[trigger] xs[i]),
    decreases ws.len(),
{
    if ws.len() > 0 {
        let front = ws.drop_last();
        lemma_decoded_seq_pointwise::<T>(front);
        assert(forall|i: int| 0 <= i < front.len() ==> front[i] == ws[i]);
        if decoded_seq::<T>(ws) is Ok {
            assert forall|i: int| 0 <= i < ws.len() implies (#[trigger] T::decoded(
                ws[i],
            )) is Ok by {
                if i < front.len() {
                    assert(front[i] == ws[i]);
                }
            }
        }
        if forall|i: int| 0 <= i < ws.len() ==> (#[trigger] T::decoded(ws[i])) is Ok {
            assert forall|i: int| 0 <= i < front.len() implies (#[trigger] T::decoded(
                front[i],
            )) is Ok by {
                assert(front[i] == ws[i]);
            }
            assert(T::decoded(ws[ws.len() - 1]) is Ok);
        }
    }
}

/// Whether each of the items is a result of converting the item of `ws` in
/// its place.
pub open spec fn items_made_from<T: TryFromValue>(items: Seq<T>, ws: Seq<Wire>) -> bool {
    &&& items.len() == ws.len()
    &&& forall|i: int| 0 <= i < items.len() ==> (#[trigger] items[i]).made_from(ws[i])
}

/// A collection converts item by item; the first item that fails decides.
/// With `T = Value` the items stay as they are.
impl<T: TryFromValue> TryFromValue for Vec<T> {
    type Model = Seq<T::Model>;

    open spec fn model(&self) -> Seq<T::Model> {
        models_of(self@)
    }

    open spec fn decoded(w: Wire) -> Result<Seq<T::Model>, Failure> {
        match w {
            Wire::Collection(ws) => decoded_seq::<T>(ws),
            _ => Err(Failure::Incompatible),
        }
    }

    open spec fn made_from(&self, w: Wire) -> bool {
        match w {
            Wire::Collection(ws) => items_made_from(self@, ws),
            _ => true,
        }
    }

    fn try_from(value: Value) -> (r: Result<Self, ConversionError>) {
        let items = match collection_items(value, "Vec") {
            Ok(items) => items,
            Err(e) => {
                return Err(e);
            },
        };
        let ghost ws = wires_of(items@);
        let mut out: Vec<T> = Vec::new();
        assert(ws.take(0) =~= Seq::<Wire>::empty());
        assert(models_of(out@) =~= Seq::<T::Model>::empty());
        for item in it: items.into_iter()
            invariant
                value@ == Wire::Collection(ws),
                wires_of(it.seq()) == ws,
                decoded_seq::<T>(ws.take(it.index() as int)) == Ok::<Seq<T::Model>, Failure>(
                    models_of(out@),
                ),
                out@.len() == it.index(),
                forall|j: int| 0 <= j < out@.len() ==> (#[trigger] out@[j]).made_from(ws[j]),
        {
            let ghost k = it.index() as int;
            proof {
                assert(ws.take(k + 1).drop_last() == ws.take(k));
                assert(ws.take(k + 1).last() == item@);
            }
            match T::try_from(item) {
                Err(e) => {
                    proof {
                        assert(decoded_seq::<T>(ws.take(k + 1)) is Err);
                        lemma_decoded_seq_fails_early::<T>(ws, k + 1);
                    }
                    return Err(e);
                },
                Ok(x) => {
                    let ghost before = out@;
                    out.push(x);
                    assert(models_of(out@) =~= models_of(before).push(x.model()));
                },
            }
        }
        assert(ws.take(ws.len() as int) == ws);
        Ok(out)
    }
}

/// The models of a sequence of key-value pairs, in order.
pub open spec fn pair_models_of<K: TryFromValue, V: TryFromValue>(
    pairs: Seq<KeyValue<K, V>>,
) -> Seq<(K::Model, V::Model)> {
    Seq::new(pairs.len(), |i: int| (pairs[i].0.model(), pairs[i].1.model()))
}

/// What converting the first `n` pairs of a flat list of keys and values
/// yields: the pairs in order, or the first failure, a key before its value.
pub open spec fn decoded_pairs<K: TryFromValue, V: TryFromValue>(ws: Seq<Wire>, n: nat) -> Result<
    Seq<(K::Model, V::Model)>,
    Failure,
>
    decreases n,
{
    if n == 0 {
        Ok(Seq::empty())
    } else {
        match decoded_pairs::<K, V>(ws, (n - 1) as nat) {
            Err(e) => Err(e),
            Ok(pairs) => match K::decoded(ws[2 * (n - 1)]) {
                Err(e) => Err(e),
                Ok(k) => match V::decoded(ws[2 * (n - 1) + 1]) {
                    Err(e) => Err(e),
                    Ok(v) => Ok(pairs.push((k, v))),
                },
            },
        }
    }
}

/// A failure among the first `k` pairs is the failure of the first `n`.
pub proof fn lemma_decoded_pairs_fails_early<K: TryFromValue, V: TryFromValue>(
    ws: Seq<Wire>,
    k: nat,
    n: nat,
)
    requires
        k <= n,
        decoded_pairs::<K, V>(ws, k) is Err,
    ensures
        decoded_pairs::<K, V>(ws, n) == decoded_pairs::<K, V>(ws, k),
    decreases n - k,
{
    if k < n {
        lemma_decoded_pairs_fails_early::<K, V>(ws, k, (n - 1) as nat);
    }
}

/// Whether each of the pairs is a result of converting the key and the
/// value of `ws` in its place.
pub open spec fn pairs_made_from<K: TryFromValue, V: TryFromValue>(
    pairs: Seq<KeyValue<K, V>>,
    ws: Seq<Wire>,
) -> bool {
    &&& 2 * pairs.len() == ws.len()
    &&& forall|i: int|
        0 <= i < pairs.len() ==> (#[trigger] pairs[i]).0.made_from(ws[2 * i])
            && pairs[i].1.made_from(ws[2 * i + 1])
}

/// A map arrives as a collection of an even number of items: key, value,
/// key, value, ... The pairs keep the order in which they came. A collection
/// of an odd number of items is incompatible.
impl<K: TryFromValue, V: TryFromValue> TryFromValue for Vec<KeyValue<K, V>> {
    type Model = Seq<(K::Model, V::Model)>;

    open spec fn model(&self) -> Seq<(K::Model, V::Model)> {
        pair_models_of(self@)
    }

    open spec fn decoded(w: Wire) -> Result<Seq<(K::Model, V::Model)>, Failure> {
        match w {
            Wire::Collection(ws) => if ws.len() % 2 == 0 {
                decoded_pairs::<K, V>(ws, ws.len() / 2)
            } else {
                Err(Failure::Incompatible)
            },
            _ => Err(Failure::Incompatible),
        }
    }

    open spec fn made_from(&self, w: Wire) -> bool {
        match w {
            Wire::Collection(ws) => pairs_made_from(self@, ws),
            _ => true,
        }
    }

    fn try_from(value: Value) -> (r: Result<Self, ConversionError>) {
        let mut items = match collection_items(value, "Vec<KeyValue>") {
            Ok(items) => items,
            Err(e) => {
                return Err(e);
            },
        };
        let len = items.len();
        if len % 2 != 0 {
            return Err(ConversionError::incompatible(items, "Vec<KeyValue>"));
        }
        let ghost ws = wires_of(items@);
        let n = len / 2;
        let mut out: Vec<KeyValue<K, V>> = Vec::new();
        let mut i: usize = 0;
        assert(pair_models_of(out@) =~= Seq::<(K::Model, V::Model)>::empty());
        while i < n
            invariant
                value@ == Wire::Collection(ws),
                i <= n,
                len == 2 * n,
                items@.len() == len,
                ws.len() == len,
                forall|j: int| 2 * i <= j < len ==> (#[trigger] items@[j])@ == ws[j],
                decoded_pairs::<K, V>(ws, i as nat) == Ok::<Seq<(K::Model, V::Model)>, Failure>(
                    pair_models_of(out@),
                ),
                out@.len() == i,
                forall|j: int|
                    0 <= j < out@.len() ==> (#[trigger] out@[j]).0.made_from(ws[2 * j])
                        && out@[j].1.made_from(ws[2 * j + 1]),
            decreases n - i,
        {
            let key = super::take_at(&mut items, 2 * i);
            let val = super::take_at(&mut items, 2 * i + 1);
            assert(key@ == ws[2 * i as int]);
            assert(val@ == ws[2 * i + 1]);
            let k = match K::try_from(key) {
                Ok(k) => k,
                Err(e) => {
                    proof {
                        assert(decoded_pairs::<K, V>(ws, (i + 1) as nat) is Err);
                        lemma_decoded_pairs_fails_early::<K, V>(ws, (i + 1) as nat, n as nat);
                    }
                    return Err(e);
                },
            };
            let v = match V::try_from(val) {
                Ok(v) => v,
                Err(e) => {
                    proof {
                        assert(decoded_pairs::<K, V>(ws, (i + 1) as nat) is Err);
                        lemma_decoded_pairs_fails_early::<K, V>(ws, (i + 1) as nat, n as nat);
                    }
                    return Err(e);
                },
            };
            let ghost before = out@;
            out.push(KeyValue(k, v));
            assert(pair_models_of(out@) =~= pair_models_of(before).push((k.model(), v.model())));
            i += 1;
        }
        Ok(out)
    }
}

} // verus!
