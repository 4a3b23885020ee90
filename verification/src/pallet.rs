//! The registry engine: minting, pricing, transfer and purchase, each applied to
//! the table and the index together or not at all.

use crate::asset_table::AssetTable;
use crate::bounded::MAX_OWNER_KITTY;
use crate::hashing::{blake2_128, encode_payload};
use crate::laws::{
    law_buy_keeps_consistent, law_create_kitty_keeps_consistent, law_set_price_keeps_consistent,
    law_transfer_keeps_consistent,
};
use crate::model::{dna_of, gender_of, minted_kitty, State};
use crate::ownership_index::{find, lemma_first_position, OwnershipIndex};
use crate::types::{AccountId, Balance, Error, Event, Gender, Kitty, KittyId, Moment, Payment};
use vstd::prelude::*;

verus! {

broadcast use vstd::array::group_array_axioms;

/// The registry: the counter of mints, the table of kitties and the index of owners.
pub struct Pallet {
    count: u32,
    kitties: AssetTable,
    kitty_owner: OwnershipIndex,
}

impl View for Pallet {
    type V = State;

    closed spec fn view(&self) -> State {
        State { count: self.count, kitties: self.kitties@, owned: self.kitty_owner@ }
    }
}

impl Pallet {
    /// A registry in which nothing was minted yet.
    pub fn new() -> (pallet: Self)
        ensures
            pallet@ == State::empty(),
            pallet@.consistent(),
    {
        Pallet { count: 0, kitties: AssetTable::new(), kitty_owner: OwnershipIndex::new() }
    }

    /// A registry over stores that were filled elsewhere, such as from a snapshot.
    pub fn from_stores(count: u32, kitties: AssetTable, kitty_owner: OwnershipIndex) -> (pallet:
        Self)
        ensures
            pallet@ == (State { count, kitties: kitties@, owned: kitty_owner@ }),
    {
        Pallet { count, kitties, kitty_owner }
    }

    /// How many kitties were minted.
    pub fn count(&self) -> (count: u32)
        ensures
            count == self@.count,
    {
        self.count
    }

    /// The kitty with the given fingerprint, if there is one.
    pub fn kitties(&self, kitty_id: &KittyId) -> (found: Option<Kitty>)
        ensures
            match found {
                Some(kitty) => self@.kitties.contains_key(*kitty_id) && kitty@
                    == self@.kitties[*kitty_id],
                None => !self@.kitties.contains_key(*kitty_id),
            },
    {
        self.kitties.get(kitty_id)
    }

    /// The fingerprints that `who` holds, in the order of the index.
    pub fn kitty_owner(&self, who: AccountId) -> (held: Vec<KittyId>)
        ensures
            held@ == self@.holdings(who),
    {
        self.kitty_owner.list(who)
    }

    /// Derives a fingerprint from the entropy seed, the index of the running
    /// extrinsic (0 when there is none) and the block number.
    pub fn generate_dna(seed: &[u8; 32], extrinsic_index: Option<u32>, block_number: u64) -> (dna:
        KittyId)
        ensures
            dna == dna_of(*seed, extrinsic_index, block_number),
    {
        let index = match extrinsic_index {
            Some(index) => index,
            None => 0,
        };
        let payload = encode_payload(seed, index, block_number);
        let dna = blake2_128(&payload);
        assert(dna =~= dna_of(*seed, extrinsic_index, block_number));
        dna
    }

    /// Reads the gender off a fingerprint.
    pub fn generate_gender(dna: &KittyId) -> (gender: Gender)
        ensures
            gender == gender_of(*dna),
    {
        if dna[0] % 2 == 0 {
            return Gender::MALE;
        }
        Gender::FEMALE
    }

    /// Makes the record of a new kitty for `who`; no store is touched.
    pub fn mint(
        who: AccountId,
        seed: &[u8; 32],
        extrinsic_index: Option<u32>,
        block_number: u64,
        now: Moment,
    ) -> (kitty: Kitty)
        ensures
            kitty@ == minted_kitty(who, dna_of(*seed, extrinsic_index, block_number), now),
    {
        let dna = Self::generate_dna(seed, extrinsic_index, block_number);
        let gender = Self::generate_gender(&dna);
        Kitty::new(who, dna, gender, now)
    }

    /// Whether `owner` owns the kitty; `NotFound` if there is no such kitty.
    pub fn is_kitty_owner(&self, kitty_id: &KittyId, owner: AccountId) -> (owns: Result<
        bool,
        Error,
    >)
        ensures
            owns == if self@.kitties.contains_key(*kitty_id) {
                Ok::<bool, Error>(self@.kitties[*kitty_id].owner == owner)
            } else {
                Err::<bool, Error>(Error::NotFound)
            },
    {
        match self.kitties.get(kitty_id) {
            Some(kitty) => Ok(kitty.owner() == owner),
            None => Err(Error::NotFound),
        }
    }

    /// Moves the kitty from its owner to `to` and removes its price. Every
    /// condition is tested before the first store is written.
    fn transfer_to(&mut self, kitty_id: KittyId, to: AccountId) -> (moved: Result<(), Error>)
        ensures
            (final(self)@, moved) == old(self)@.transfer_to(kitty_id, to),
    {
        let mut kitty = match self.kitties.get(&kitty_id) {
            Some(kitty) => kitty,
            None => {
                return Err(Error::NotFound);
            },
        };
        let owner = kitty.owner();
        let held = self.kitty_owner.list(owner);
        let at = match find(&held, &kitty_id) {
            Some(at) => at,
            None => {
                return Err(Error::InconsistentState);
            },
        };
        proof {
            lemma_first_position(held@, kitty_id, at as int);
        }
        let full = if to == owner {
            held.len() - 1 >= MAX_OWNER_KITTY as usize
        } else {
            self.kitty_owner.is_full(to)
        };
        if full {
            return Err(Error::OwnerCapacityExceeded);
        }
        let _ = self.kitty_owner.remove(owner, &kitty_id);
        kitty.set_price(None);
        kitty.set_owner(to);
        self.kitties.insert(kitty_id, kitty);
        let _ = self.kitty_owner.add(to, kitty_id);
        Ok(())
    }

    /// Mints a kitty for `who` from the given entropy and context, at time `now`.
    ///
    /// An owner who holds the maximum is refused with `OwnerCapacityExceeded`. A
    /// fingerprint that the table already has is refused with
    /// `DuplicateIdentity`: nothing is overwritten and nothing is retried, so the
    /// host may call again with other entropy.
    pub fn create_kitty(
        &mut self,
        who: AccountId,
        seed: &[u8; 32],
        extrinsic_index: Option<u32>,
        block_number: u64,
        now: Moment,
    ) -> (created: Result<Event, Error>)
        ensures
            (final(self)@, created) == old(self)@.create_kitty(
                who,
                dna_of(*seed, extrinsic_index, block_number),
                now,
            ),
            old(self)@.consistent() ==> final(self)@.consistent(),
    {
        proof {
            if self@.consistent() {
                law_create_kitty_keeps_consistent(
                    self@,
                    who,
                    dna_of(*seed, extrinsic_index, block_number),
                    now,
                );
            }
        }
        let kitty = Self::mint(who, seed, extrinsic_index, block_number, now);
        let kitty_id = kitty.dna();
        if self.kitty_owner.is_full(who) {
            return Err(Error::OwnerCapacityExceeded);
        }
        if self.kitties.get(&kitty_id).is_some() {
            return Err(Error::DuplicateIdentity);
        }
        self.kitties.insert(kitty_id, kitty);
        let _ = self.kitty_owner.add(who, kitty_id);
        if self.count < u32::MAX {
            self.count = self.count + 1;
        }
        Ok(Event::KittyCreated(who, kitty_id))
    }

    /// Sets the price of a kitty on behalf of its owner `who`; `None` takes it off sale.
    pub fn set_price(&mut self, who: AccountId, kitty_id: KittyId, price: Option<Balance>) -> (set:
        Result<Event, Error>)
        ensures
            (final(self)@, set) == old(self)@.set_price(who, kitty_id, price),
            old(self)@.consistent() ==> final(self)@.consistent(),
    {
        proof {
            if self@.consistent() {
                law_set_price_keeps_consistent(self@, who, kitty_id, price);
            }
        }
        let mut kitty = match self.kitties.get(&kitty_id) {
            Some(kitty) => kitty,
            None => {
                return Err(Error::NotFound);
            },
        };
        if kitty.owner() != who {
            return Err(Error::NotOwner);
        }
        kitty.set_price(price);
        self.kitties.insert(kitty_id, kitty);
        Ok(Event::PriceSet(kitty_id, price))
    }

    /// Gives the kitty of `from` to `to`.
    pub fn transfer(&mut self, from: AccountId, to: AccountId, kitty_id: KittyId) -> (transferred:
        Result<Event, Error>)
        ensures
            (final(self)@, transferred) == old(self)@.transfer(from, to, kitty_id),
            old(self)@.consistent() ==> final(self)@.consistent(),
    {
        proof {
            if self@.consistent() {
                law_transfer_keeps_consistent(self@, from, to, kitty_id);
            }
        }
        let kitty = match self.kitties.get(&kitty_id) {
            Some(kitty) => kitty,
            None => {
                return Err(Error::NotFound);
            },
        };
        if kitty.owner() != from {
            return Err(Error::NotOwner);
        }
        if from == to {
            return Err(Error::SelfTransfer);
        }
        match self.transfer_to(kitty_id, to) {
            Ok(_) => Ok(Event::KittyTranfered(kitty_id, to)),
            Err(e) => Err(e),
        }
    }

    /// Tests a purchase without changing anything. The tests run in this order:
    /// the kitty is there, it has a price, the buyer can pay it, the buyer is not
    /// the owner, the owner's list holds the kitty, the buyer's list has room.
    /// On `Ok` the host has the ledger move the payment; if the ledger refuses,
    /// the purchase ends there and nothing was changed. If it moves the funds,
    /// [`Pallet::buy`] on the same registry succeeds.
    pub fn quote(&self, buyer: AccountId, kitty_id: KittyId, free_balance: Balance) -> (quoted:
        Result<Payment, Error>)
        ensures
            quoted == self@.quote(buyer, kitty_id, free_balance),
    {
        let kitty = match self.kitties.get(&kitty_id) {
            Some(kitty) => kitty,
            None => {
                return Err(Error::NotFound);
            },
        };
        let price = match kitty.price() {
            Some(price) => price,
            None => {
                return Err(Error::NotForSale);
            },
        };
        if free_balance < price {
            return Err(Error::InsufficientFunds);
        }
        let owner = kitty.owner();
        if owner == buyer {
            return Err(Error::SelfTransfer);
        }
        let held = self.kitty_owner.list(owner);
        match find(&held, &kitty_id) {
            Some(at) => {
                proof {
                    lemma_first_position(held@, kitty_id, at as int);
                }
            },
            None => {
                return Err(Error::InconsistentState);
            },
        }
        if self.kitty_owner.is_full(buyer) {
            return Err(Error::OwnerCapacityExceeded);
        }
        Ok(Payment { from: buyer, to: owner, amount: price })
    }

    /// Hands the kitty to `buyer`, whose payment the ledger has made, and
    /// removes its price. `free_balance` is what the buyer could spend before
    /// paying. Whatever [`Pallet::quote`] refuses is refused here with the same
    /// error, and then nothing changes.
    pub fn buy(&mut self, buyer: AccountId, kitty_id: KittyId, free_balance: Balance) -> (bought:
        Result<Event, Error>)
        ensures
            (final(self)@, bought) == old(self)@.buy(buyer, kitty_id, free_balance),
            old(self)@.consistent() ==> final(self)@.consistent(),
    {
        proof {
            if self@.consistent() {
                law_buy_keeps_consistent(self@, buyer, kitty_id, free_balance);
            }
        }
        match self.quote(buyer, kitty_id, free_balance) {
            Ok(_) => {
                let _ = self.transfer_to(kitty_id, buyer);
                Ok(Event::KittyTranfered(kitty_id, buyer))
            },
            Err(e) => Err(e),
        }
    }
}

} // verus!
