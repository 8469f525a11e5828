//! Editable views of curve keys, kept by the curve editor. The container's
//! bookkeeping touches only each key's stable id: the key payload (its
//! position on the curve and its tangent kind) and the container's brush are
//! opaque to it, so they stay type parameters and the id-keyed rules are
//! checked for every payload.

use vstd::prelude::*;

verus! {

/// An editable view of one curve key: its payload, and the key's stable id.
pub struct CurveKeyView<P, K> {
    pub position: P,
    pub kind: K,
    pub id: u128,
}

/// True iff some key of `s` carries `id`.
pub open spec fn has_key<P, K>(s: Seq<CurveKeyView<P, K>>, id: u128) -> bool {
    exists|i: int| 0 <= i < s.len() && s[i].id == id
}

/// The position of the first key of `s` carrying `id` (meaningful only when
/// `has_key(s, id)`).
pub open spec fn first_key_index<P, K>(s: Seq<CurveKeyView<P, K>>, id: u128) -> int {
    choose|i: int|
        0 <= i < s.len() && s[i].id == id && (forall|j: int| 0 <= j < i ==> s[j].id != id)
}

/// An index that carries `id` and is preceded by none that does is the first
/// such index.
proof fn lemma_first_key_index<P, K>(s: Seq<CurveKeyView<P, K>>, id: u128, i: int)
    requires
        0 <= i < s.len(),
        s[i].id == id,
        forall|j: int| 0 <= j < i ==> s[j].id != id,
    ensures
        has_key(s, id),
        first_key_index(s, id) == i,
{
    assert(has_key(s, id));
    let c = choose|c: int|
        0 <= c < s.len() && s[c].id == id && (forall|j: int| 0 <= j < c ==> s[j].id != id);
    assert(0 <= c < s.len() && s[c].id == id && (forall|j: int| 0 <= j < c ==> s[j].id != id))
        by {
        assert(0 <= i < s.len() && s[i].id == id && (forall|j: int| 0 <= j < i ==> s[j].id
            != id));
    };
    if c < i {
        assert(s[c].id != id);
    }
    if i < c {
        assert(s[i].id != id);
    }
}

/// The keys of one curve as the curve editor shows them, in their edit order,
/// together with the curve's stable id and the brush it is drawn with.
pub struct CurveKeyViewContainer<P, K, B> {
    id: u128,
    pub brush: B,
    keys: Vec<CurveKeyView<P, K>>,
}

impl<P, K, B> CurveKeyViewContainer<P, K, B> {
    /// The id of the curve the views were taken from.
    pub closed spec fn spec_id(&self) -> u128 {
        self.id
    }

    /// The key views, in order.
    pub closed spec fn spec_keys(&self) -> Seq<CurveKeyView<P, K>> {
        self.keys@
    }

    /// The brush the curve is drawn with.
    pub closed spec fn spec_brush(&self) -> B {
        self.brush
    }

    /// A container for the curve `id`, drawn with `brush`, holding `keys`.
    pub fn new(id: u128, brush: B, keys: Vec<CurveKeyView<P, K>>) -> (r: Self)
        ensures
            r.spec_id() == id,
            r.spec_brush() == brush,
            r.spec_keys() == keys@,
    {
        CurveKeyViewContainer { id, brush, keys }
    }

    /// Append a key view.
    pub fn add(&mut self, key: CurveKeyView<P, K>)
        ensures
            final(self).spec_keys() == old(self).spec_keys().push(key),
            final(self).spec_id() == old(self).spec_id(),
            final(self).spec_brush() == old(self).spec_brush(),
    {
        self.keys.push(key)
    }

    /// Remove and hand back the first key carrying `id`, if one exists;
    /// otherwise change nothing.
    pub fn remove(&mut self, id: u128) -> (r: Option<CurveKeyView<P, K>>)
        ensures
            has_key(old(self).spec_keys(), id) ==> {
                let i = first_key_index(old(self).spec_keys(), id);
                r matches Some(k) && k == old(self).spec_keys()[i] && final(self).spec_keys()
                    == old(self).spec_keys().remove(i)
            },
            !has_key(old(self).spec_keys(), id) ==> r is None && *final(self) == *old(self),
            final(self).spec_id() == old(self).spec_id(),
            final(self).spec_brush() == old(self).spec_brush(),
    {
        match self.key_position(id) {
            Option::Some(position) => Option::Some(self.keys.remove(position)),
            Option::None => Option::None,
        }
    }

    /// The id of the curve the views were taken from.
    pub fn id(&self) -> (r: u128)
        ensures
            r == self.spec_id(),
    {
        self.id
    }

    /// A reference to the first key carrying `id`, if one exists.
    pub fn key_ref(&self, id: u128) -> (r: Option<&CurveKeyView<P, K>>)
        ensures
            has_key(self.spec_keys(), id) ==> (r matches Some(k) && *k == self.spec_keys()[
                first_key_index(self.spec_keys(), id)]),
            !has_key(self.spec_keys(), id) ==> r is None,
    {
        match self.key_position(id) {
            Option::Some(position) => Option::Some(&self.keys[position]),
            Option::None => Option::None,
        }
    }

    /// The index of the first key carrying `id`, if one exists.
    pub fn key_position(&self, id: u128) -> (r: Option<usize>)
        ensures
            has_key(self.spec_keys(), id) ==> (r matches Some(p) && p as int == first_key_index(
                self.spec_keys(),
                id,
            ) && p < self.spec_keys().len() && self.spec_keys()[p as int].id == id && (
            forall|j: int| 0 <= j < p ==> self.spec_keys()[j].id != id)),
            !has_key(self.spec_keys(), id) ==> r is None,
    {
        let count = self.keys.len();
        let mut i: usize = 0;
        while i < count
            invariant
                count == self.keys@.len(),
                i <= count,
                forall|j: int| 0 <= j < i ==> self.keys@[j].id != id,
            decreases count - i,
        {
            if self.keys[i].id == id {
                proof {
                    lemma_first_key_index(self.keys@, id, i as int);
                }
                return Option::Some(i);
            }
            i = i + 1;
        }
        Option::None
    }

    /// A reference to the key at `index`, if it is in bounds.
    pub fn key_index_ref(&self, index: usize) -> (r: Option<&CurveKeyView<P, K>>)
        ensures
            index < self.spec_keys().len() ==> (r matches Some(k) && *k == self.spec_keys()[
                index as int]),
            index >= self.spec_keys().len() ==> r is None,
    {
        if index < self.keys.len() {
            Option::Some(&self.keys[index])
        } else {
            Option::None
        }
    }

    /// All key views, in order.
    pub fn keys(&self) -> (r: &[CurveKeyView<P, K>])
        ensures
            r@ == self.spec_keys(),
    {
        self.keys.as_slice()
    }
}

} // verus!
