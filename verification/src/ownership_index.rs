//! The index from each owner to the fingerprints of the kitties that the owner
//! holds. It refers into the table of kitties and copies nothing from it.

use crate::bounded::{
    list_is_full, list_items, list_new, list_swap_remove, list_try_push, listed, swap_removed,
    MAX_OWNER_KITTY,
};
use crate::types::{same_id, AccountId, Error, KittyId};
use frame_support::traits::ConstU32;
use frame_support::BoundedVec;
use std::collections::HashMap;
use vstd::prelude::*;

verus! {

broadcast use vstd::std_specs::hash::group_hash_axioms;

/// What `who` holds according to `index`: nothing, if the index does not know the owner.
pub open spec fn owned_by(index: Map<AccountId, Seq<KittyId>>, who: AccountId) -> Seq<KittyId> {
    if index.contains_key(who) {
        index[who]
    } else {
        Seq::empty()
    }
}

/// `i` is the first place at which `s` holds `id`.
pub open spec fn is_first_position(s: Seq<KittyId>, id: KittyId, i: int) -> bool {
    &&& 0 <= i < s.len()
    &&& s[i] == id
    &&& forall|j: int| 0 <= j < i ==> s[j] != id
}

/// The first place at which `s` holds `id`; arbitrary if it holds it nowhere.
pub open spec fn first_position(s: Seq<KittyId>, id: KittyId) -> int {
    choose|i: int| is_first_position(s, id, i)
}

/// There is at most one first place.
pub proof fn lemma_first_position(s: Seq<KittyId>, id: KittyId, i: int)
    requires
        is_first_position(s, id, i),
    ensures
        first_position(s, id) == i,
        s.contains(id),
{
    let c = first_position(s, id);
    assert(is_first_position(s, id, c));
    if c < i {
        assert(s[c] != id);
    } else if i < c {
        assert(s[i] != id);
    }
}

/// The first place at which `items` holds `id`, if it holds it at all.
pub fn find(items: &Vec<KittyId>, id: &KittyId) -> (at: Option<usize>)
    ensures
        match at {
            Some(i) => is_first_position(items@, *id, i as int),
            None => !items@.contains(*id),
        },
{
    let mut i: usize = 0;
    while i < items.len()
        invariant
            i <= items.len(),
            forall|j: int| 0 <= j < i ==> items@[j] != *id,
        decreases items.len() - i,
    {
        if same_id(&items[i], id) {
            return Some(i);
        }
        i += 1;
    }
    None
}

/// A map from owner to the bounded list of what the owner holds.
pub struct OwnershipIndex {
    lists: HashMap<AccountId, BoundedVec<[u8; 16], ConstU32<MAX_OWNER_KITTY>>>,
}

impl View for OwnershipIndex {
    type V = Map<AccountId, Seq<KittyId>>;

    closed spec fn view(&self) -> Map<AccountId, Seq<KittyId>> {
        Map::new(
            |who: AccountId| self.lists@.contains_key(who),
            |who: AccountId| listed(self.lists@[who]),
        )
    }
}

impl OwnershipIndex {
    /// An index that knows no owner.
    pub fn new() -> (index: Self)
        ensures
            index@ == Map::<AccountId, Seq<KittyId>>::empty(),
    {
        let index = OwnershipIndex { lists: HashMap::new() };
        assert(index@ =~= Map::<AccountId, Seq<KittyId>>::empty());
        index
    }

    /// What `who` holds, in the order of the index.
    pub fn list(&self, who: AccountId) -> (items: Vec<KittyId>)
        ensures
            items@ == owned_by(self@, who),
    {
        match self.lists.get(&who) {
            Some(list) => list_items(list),
            None => Vec::new(),
        }
    }

    /// Whether `who` holds as many kitties as one owner can.
    pub fn is_full(&self, who: AccountId) -> (full: bool)
        ensures
            full == (owned_by(self@, who).len() >= MAX_OWNER_KITTY),
    {
        match self.lists.get(&who) {
            Some(list) => list_is_full(list),
            None => false,
        }
    }

    /// Appends `id` to what `who` holds, unless the owner's list is full.
    pub fn add(&mut self, who: AccountId, id: KittyId) -> (added: Result<(), Error>)
        ensures
            match added {
                Ok(_) => owned_by(old(self)@, who).len() < MAX_OWNER_KITTY && final(self)@ == old(
                    self,
                )@.insert(who, owned_by(old(self)@, who).push(id)),
                Err(e) => e == Error::OwnerCapacityExceeded && owned_by(old(self)@, who).len()
                    >= MAX_OWNER_KITTY && final(self)@ == old(self)@,
            },
    {
        if self.is_full(who) {
            return Err(Error::OwnerCapacityExceeded);
        }
        let mut list = match self.lists.remove(&who) {
            Some(list) => list,
            None => list_new(),
        };
        let _ = list_try_push(&mut list, id);
        self.lists.insert(who, list);
        assert(self@ =~= old(self)@.insert(who, owned_by(old(self)@, who).push(id)));
        Ok(())
    }

    /// Takes `id` out of what `who` holds: the last item moves into its place.
    pub fn remove(&mut self, who: AccountId, id: &KittyId) -> (removed: Result<(), Error>)
        ensures
            match removed {
                Ok(_) => owned_by(old(self)@, who).contains(*id) && final(self)@ == old(
                    self,
                )@.insert(
                    who,
                    swap_removed(
                        owned_by(old(self)@, who),
                        first_position(owned_by(old(self)@, who), *id),
                    ),
                ),
                Err(e) => e == Error::NotFound && !owned_by(old(self)@, who).contains(*id)
                    && final(self)@ == old(self)@,
            },
    {
        let items = self.list(who);
        let at = match find(&items, id) {
            Some(at) => at,
            None => {
                return Err(Error::NotFound);
            },
        };
        proof {
            lemma_first_position(items@, *id, at as int);
        }
        match self.lists.remove(&who) {
            Some(mut list) => {
                let _ = list_swap_remove(&mut list, at);
                self.lists.insert(who, list);
            },
            None => {},
        }
        assert(self@ =~= old(self)@.insert(
            who,
            swap_removed(owned_by(old(self)@, who), at as int),
        ));
        Ok(())
    }
}

} // verus!
