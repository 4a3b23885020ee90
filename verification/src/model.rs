//! The registry as a mathematical value, and each operation as a function from
//! the state before it to the state after it and the answer.

use crate::bounded::{swap_removed, MAX_OWNER_KITTY};
use crate::hashing::{blake2_128_of, dna_payload};
use crate::ownership_index::{first_position, owned_by};
use crate::types::{AccountId, Balance, Error, Event, Gender, KittyId, KittyView, Moment, Payment};
use vstd::prelude::*;

verus! {

/// The fingerprint with the given bytes.
pub open spec fn fingerprint_of(bytes: Seq<u8>) -> KittyId {
    choose|dna: KittyId| dna@ == bytes
}

/// The fingerprint that the three inputs give: the digest of their encoding,
/// with 0 in place of an extrinsic index that is not known.
pub open spec fn dna_of(seed: [u8; 32], extrinsic_index: Option<u32>, block_number: u64) -> KittyId {
    let index = match extrinsic_index {
        Some(index) => index,
        None => 0u32,
    };
    fingerprint_of(blake2_128_of(dna_payload(seed, index, block_number)))
}

/// The gender that a fingerprint stands for: male if its first byte is even,
/// female if it is odd.
pub open spec fn gender_of(dna: KittyId) -> Gender {
    if dna[0] % 2 == 0 {
        Gender::MALE
    } else {
        Gender::FEMALE
    }
}

/// The record of a kitty at the moment it is minted.
pub open spec fn minted_kitty(who: AccountId, dna: KittyId, now: Moment) -> KittyView {
    KittyView { dna, owner: who, price: None, gender: gender_of(dna), created_date: now }
}

/// The counter of mints after one more: it stops at the largest value it can hold.
pub open spec fn counted(count: u32) -> u32 {
    if count < u32::MAX {
        (count + 1) as u32
    } else {
        count
    }
}

/// The registry's content.
pub struct State {
    /// How many kitties were minted.
    pub count: u32,
    /// The table: each kitty by its fingerprint.
    pub kitties: Map<KittyId, KittyView>,
    /// The index: what each owner holds.
    pub owned: Map<AccountId, Seq<KittyId>>,
}

impl State {
    /// The registry before anything was minted.
    pub open spec fn empty() -> State {
        State { count: 0, kitties: Map::empty(), owned: Map::empty() }
    }

    /// What `who` holds.
    pub open spec fn holdings(self, who: AccountId) -> Seq<KittyId> {
        owned_by(self.owned, who)
    }

    /// The table and the index agree: every kitty of the table is filed under
    /// its own fingerprint and is listed by its owner; whatever an owner lists
    /// is a kitty of the table that belongs to that owner; and no list names a
    /// kitty twice.
    pub open spec fn consistent(self) -> bool {
        &&& forall|id: KittyId| #[trigger]
            self.kitties.contains_key(id) ==> self.kitties[id].dna == id && self.holdings(
                self.kitties[id].owner,
            ).contains(id)
        &&& forall|who: AccountId, i: int|
            0 <= i < self.holdings(who).len() ==> self.kitties.contains_key(
                #[trigger] self.holdings(who)[i],
            ) && self.kitties[self.holdings(who)[i]].owner == who
        &&& forall|who: AccountId| #[trigger] self.holdings(who).no_duplicates()
    }

    /// Minting a kitty with fingerprint `dna` for `who` at time `now`.
    ///
    /// An owner who holds the maximum is refused first; then a fingerprint that
    /// the table already has is refused, and nothing is retried.
    pub open spec fn create_kitty(self, who: AccountId, dna: KittyId, now: Moment) -> (
        State,
        Result<Event, Error>,
    ) {
        if self.holdings(who).len() >= MAX_OWNER_KITTY {
            (self, Err(Error::OwnerCapacityExceeded))
        } else if self.kitties.contains_key(dna) {
            (self, Err(Error::DuplicateIdentity))
        } else {
            (
                State {
                    count: counted(self.count),
                    kitties: self.kitties.insert(dna, minted_kitty(who, dna, now)),
                    owned: self.owned.insert(who, self.holdings(who).push(dna)),
                },
                Ok(Event::KittyCreated(who, dna)),
            )
        }
    }

    /// `who` sets the price of the kitty `id`, or takes it off sale with `None`.
    pub open spec fn set_price(self, who: AccountId, id: KittyId, price: Option<Balance>) -> (
        State,
        Result<Event, Error>,
    ) {
        if !self.kitties.contains_key(id) {
            (self, Err(Error::NotFound))
        } else if self.kitties[id].owner != who {
            (self, Err(Error::NotOwner))
        } else {
            (
                State { kitties: self.kitties.insert(id, self.kitties[id].priced(price)), ..self },
                Ok(Event::PriceSet(id, price)),
            )
        }
    }

    /// The index after the kitty `id` left the list of `from`.
    pub open spec fn released(self, from: AccountId, id: KittyId) -> Map<AccountId, Seq<KittyId>> {
        self.owned.insert(
            from,
            swap_removed(self.holdings(from), first_position(self.holdings(from), id)),
        )
    }

    /// The kitty `id` changes hands: it leaves the list of its owner, belongs to
    /// `to` without a price, and joins the list of `to`.
    pub open spec fn transfer_to(self, id: KittyId, to: AccountId) -> (State, Result<(), Error>) {
        if !self.kitties.contains_key(id) {
            (self, Err(Error::NotFound))
        } else if !self.holdings(self.kitties[id].owner).contains(id) {
            (self, Err(Error::InconsistentState))
        } else {
            let released = self.released(self.kitties[id].owner, id);
            if owned_by(released, to).len() >= MAX_OWNER_KITTY {
                (self, Err(Error::OwnerCapacityExceeded))
            } else {
                (
                    State {
                        count: self.count,
                        kitties: self.kitties.insert(id, self.kitties[id].handed_to(to)),
                        owned: released.insert(to, owned_by(released, to).push(id)),
                    },
                    Ok(()),
                )
            }
        }
    }

    /// `from` gives the kitty `id` to `to`.
    pub open spec fn transfer(self, from: AccountId, to: AccountId, id: KittyId) -> (
        State,
        Result<Event, Error>,
    ) {
        if !self.kitties.contains_key(id) {
            (self, Err(Error::NotFound))
        } else if self.kitties[id].owner != from {
            (self, Err(Error::NotOwner))
        } else if to == from {
            (self, Err(Error::SelfTransfer))
        } else {
            match self.transfer_to(id, to).1 {
                Ok(_) => (self.transfer_to(id, to).0, Ok(Event::KittyTranfered(id, to))),
                Err(e) => (self, Err(e)),
            }
        }
    }

    /// Whether `buyer`, with `free_balance` to spend, may buy the kitty `id`,
    /// and what is then to be paid to whom.
    pub open spec fn quote(self, buyer: AccountId, id: KittyId, free_balance: Balance) -> Result<
        Payment,
        Error,
    > {
        if !self.kitties.contains_key(id) {
            Err(Error::NotFound)
        } else {
            match self.kitties[id].price {
                None => Err(Error::NotForSale),
                Some(price) => {
                    if free_balance < price {
                        Err(Error::InsufficientFunds)
                    } else if self.kitties[id].owner == buyer {
                        Err(Error::SelfTransfer)
                    } else {
                        match self.transfer_to(id, buyer).1 {
                            Ok(_) => Ok(
                                Payment { from: buyer, to: self.kitties[id].owner, amount: price },
                            ),
                            Err(e) => Err(e),
                        }
                    }
                },
            }
        }
    }

    /// `buyer` takes the kitty `id` over, the payment of [`State::quote`] being made.
    pub open spec fn buy(self, buyer: AccountId, id: KittyId, free_balance: Balance) -> (
        State,
        Result<Event, Error>,
    ) {
        match self.quote(buyer, id, free_balance) {
            Ok(_) => (self.transfer_to(id, buyer).0, Ok(Event::KittyTranfered(id, buyer))),
            Err(e) => (self, Err(e)),
        }
    }
}

} // verus!
