//! A map from object ids.
use crate::base_types::ObjectID;
use std::collections::BTreeMap;
use vstd::prelude::*;

verus! {

broadcast use {
    vstd::array::group_array_axioms,
    vstd::laws_cmp::group_laws_cmp,
    vstd::std_specs::btree::group_btree_axioms,
};

/// A map from object ids to values.
///
/// An id is filed under the two numbers that its halves spell.
#[verifier::reject_recursive_types(V)]
#[derive(Debug)]
pub struct ObjectMap<V> {
    entries: BTreeMap<(u128, u128), V>,
}

/// The numbers that the halves of an id spell, least significant byte first.
spec fn halves(id: ObjectID) -> (u128, u128) {
    (
        vstd::bytes::spec_u128_from_le_bytes(id.bytes@.subrange(0, 16)),
        vstd::bytes::spec_u128_from_le_bytes(id.bytes@.subrange(16, 32)),
    )
}

/// Distinct ids are filed under distinct numbers.
proof fn lemma_halves_injective(a: ObjectID, b: ObjectID)
    ensures
        halves(a) == halves(b) ==> a == b,
{
    if halves(a) == halves(b) {
        vstd::bytes::lemma_auto_spec_u128_to_from_le_bytes();
        let a0 = a.bytes@.subrange(0, 16);
        let a1 = a.bytes@.subrange(16, 32);
        let b0 = b.bytes@.subrange(0, 16);
        let b1 = b.bytes@.subrange(16, 32);
        assert(vstd::bytes::spec_u128_to_le_bytes(vstd::bytes::spec_u128_from_le_bytes(a0)) == a0);
        assert(vstd::bytes::spec_u128_to_le_bytes(vstd::bytes::spec_u128_from_le_bytes(a1)) == a1);
        assert(a0 == b0);
        assert(a1 == b1);
        assert forall|i: int| 0 <= i < 32 implies a.bytes[i] == b.bytes[i] by {
            if i < 16 {
                assert(a0[i] == b0[i]);
            } else {
                assert(a1[i - 16] == b1[i - 16]);
            }
        }
        assert(a.bytes =~= b.bytes);
    }
}

fn compute_halves(id: &ObjectID) -> (r: (u128, u128))
    ensures
        r == halves(*id),
{
    let bytes: &[u8] = id.bytes.as_slice();
    (
        vstd::bytes::u128_from_le_bytes(vstd::slice::slice_subrange(bytes, 0, 16)),
        vstd::bytes::u128_from_le_bytes(vstd::slice::slice_subrange(bytes, 16, 32)),
    )
}

impl<V> View for ObjectMap<V> {
    type V = Map<ObjectID, V>;

    closed spec fn view(&self) -> Map<ObjectID, V> {
        Map::new(
            |id: ObjectID| self.entries@.contains_key(halves(id)),
            |id: ObjectID| self.entries@[halves(id)],
        )
    }
}

impl<V> ObjectMap<V> {
    /// An empty map.
    pub fn new() -> (r: ObjectMap<V>)
        ensures
            r@ == Map::<ObjectID, V>::empty(),
    {
        let r: ObjectMap<V> = ObjectMap { entries: BTreeMap::new() };
        assert(r@ =~= Map::<ObjectID, V>::empty());
        r
    }

    /// Puts a value under an id, in place of the one that was there.
    pub fn insert(&mut self, id: ObjectID, value: V)
        ensures
            final(self)@ == old(self)@.insert(id, value),
    {
        let _ = self.entries.insert(compute_halves(&id), value);
        proof {
            assert forall|other: ObjectID| #[trigger] halves(other) == halves(id) implies other
                == id by {
                lemma_halves_injective(other, id);
            }
            assert(self@ =~= old(self)@.insert(id, value));
        }
    }

    /// The value under an id.
    pub fn get(&self, id: &ObjectID) -> (r: Option<&V>)
        ensures
            match r {
                Some(value) => self@.contains_key(*id) && *value == self@[*id],
                None => !self@.contains_key(*id),
            },
    {
        self.entries.get(&compute_halves(id))
    }
}

} // verus!
