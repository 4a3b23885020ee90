//! The table of kitties: the one place that knows a kitty's owner, price, gender
//! and date of creation.

use crate::types::{Kitty, KittyId, KittyView};
use std::collections::HashMap;
use vstd::bytes::{
    lemma_auto_spec_u128_to_from_le_bytes, spec_u128_from_le_bytes, spec_u128_to_le_bytes,
    u128_from_le_bytes,
};
use vstd::prelude::*;

verus! {

broadcast use {vstd::std_specs::hash::group_hash_axioms, vstd::array::group_array_axioms};

/// The number under which a fingerprint is filed: its bytes read in little-endian order.
pub closed spec fn key_of(id: KittyId) -> u128 {
    spec_u128_from_le_bytes(id@)
}

/// Two fingerprints are filed under the same number only if they are the same.
pub proof fn lemma_key_of_injective(a: KittyId, b: KittyId)
    ensures
        key_of(a) == key_of(b) <==> a == b,
{
    lemma_auto_spec_u128_to_from_le_bytes();
    if key_of(a) == key_of(b) {
        assert(spec_u128_to_le_bytes(spec_u128_from_le_bytes(a@)) == a@);
        assert(spec_u128_to_le_bytes(spec_u128_from_le_bytes(b@)) == b@);
        assert(a =~= b);
    }
}

fn key(id: &KittyId) -> (k: u128)
    ensures
        k == key_of(*id),
{
    u128_from_le_bytes(id.as_slice())
}

/// A map from fingerprint to kitty.
pub struct AssetTable {
    rows: HashMap<u128, Kitty>,
}

impl View for AssetTable {
    type V = Map<KittyId, KittyView>;

    closed spec fn view(&self) -> Map<KittyId, KittyView> {
        Map::new(
            |id: KittyId| self.rows@.contains_key(key_of(id)),
            |id: KittyId| self.rows@[key_of(id)]@,
        )
    }
}

impl AssetTable {
    /// A table without kitties.
    pub fn new() -> (table: Self)
        ensures
            table@ == Map::<KittyId, KittyView>::empty(),
    {
        let table = AssetTable { rows: HashMap::new() };
        assert(table@ =~= Map::<KittyId, KittyView>::empty());
        table
    }

    /// The kitty with the given fingerprint, if the table has one.
    pub fn get(&self, id: &KittyId) -> (found: Option<Kitty>)
        ensures
            match found {
                Some(kitty) => self@.contains_key(*id) && kitty@ == self@[*id],
                None => !self@.contains_key(*id),
            },
    {
        let k = key(id);
        match self.rows.get(&k) {
            Some(kitty) => Some(*kitty),
            None => None,
        }
    }

    /// Files `kitty` under `id`, in place of what was filed there before.
    pub fn insert(&mut self, id: KittyId, kitty: Kitty)
        ensures
            final(self)@ == old(self)@.insert(id, kitty@),
    {
        let k = key(&id);
        self.rows.insert(k, kitty);
        proof {
            assert forall|other: KittyId| other != id implies key_of(other) != key_of(id) by {
                lemma_key_of_injective(other, id);
            }
            assert(self@ =~= old(self)@.insert(id, kitty@));
        }
    }
}

} // verus!
