//! The records that the registry stores and the values that its operations return.

use vstd::prelude::*;

verus! {

broadcast use vstd::array::group_array_axioms;

/// A principal that can own kitties.
pub type AccountId = u64;

/// An amount of money.
pub type Balance = u128;

/// A point in time, as the time source counts it.
pub type Moment = u64;

/// The fingerprint by which a kitty is known.
pub type KittyId = [u8; 16];

/// Whether two fingerprints are the same, byte for byte.
pub fn same_id(a: &KittyId, b: &KittyId) -> (same: bool)
    ensures
        same == (*a == *b),
{
    let mut i: usize = 0;
    while i < 16
        invariant
            i <= 16,
            forall|j: int| 0 <= j < i ==> a[j] == b[j],
        decreases 16 - i,
    {
        if a[i] != b[i] {
            return false;
        }
        i += 1;
    }
    assert(*a =~= *b);
    true
}

/// The binary trait of a kitty, fixed when it is minted.
#[allow(non_camel_case_types)]
#[derive(Clone, Copy, Debug, PartialEq, Eq, Structural)]
pub enum Gender {
    MALE,
    FEMALE,
}

/// Why an operation was rejected.
#[derive(Clone, Copy, Debug, PartialEq, Eq, Structural)]
pub enum Error {
    /// No kitty has the given fingerprint.
    NotFound,
    /// The caller does not own the kitty.
    NotOwner,
    /// The kitty would go to the account that already owns it.
    SelfTransfer,
    /// The kitty has no price, so it cannot be bought.
    NotForSale,
    /// The buyer's free balance is below the price.
    InsufficientFunds,
    /// The receiving owner already holds the maximum number of kitties.
    OwnerCapacityExceeded,
    /// The owner recorded in the table does not list the kitty: the two stores disagree.
    InconsistentState,
    /// A freshly generated fingerprint is already in the table.
    DuplicateIdentity,
}

impl Error {
    /// Whether the error reports a broken registry rather than a request that
    /// had to be refused: only `InconsistentState` does.
    pub fn is_fatal(&self) -> (fatal: bool)
        ensures
            fatal == (*self == Error::InconsistentState),
    {
        match self {
            Error::InconsistentState => true,
            _ => false,
        }
    }
}

/// What an operation asks the host to announce.
#[derive(Clone, Copy, Debug, PartialEq, Eq)]
pub enum Event {
    /// A kitty was minted for the account.
    KittyCreated(AccountId, KittyId),
    /// The kitty now belongs to the account.
    KittyTranfered(KittyId, AccountId),
    /// The kitty's price was set, or removed.
    PriceSet(KittyId, Option<Balance>),
}

/// The movement of funds that a purchase asks of the ledger.
#[derive(Clone, Copy, Debug, PartialEq, Eq, Structural)]
pub struct Payment {
    pub from: AccountId,
    pub to: AccountId,
    pub amount: Balance,
}

/// One kitty as the table stores it.
#[derive(Clone, Copy, Debug, PartialEq, Eq)]
pub struct Kitty {
    dna: KittyId,
    owner: AccountId,
    price: Option<Balance>,
    gender: Gender,
    created_date: Moment,
}

/// The mathematical content of a [`Kitty`].
pub struct KittyView {
    pub dna: KittyId,
    pub owner: AccountId,
    pub price: Option<Balance>,
    pub gender: Gender,
    pub created_date: Moment,
}

impl View for Kitty {
    type V = KittyView;

    closed spec fn view(&self) -> KittyView {
        KittyView {
            dna: self.dna,
            owner: self.owner,
            price: self.price,
            gender: self.gender,
            created_date: self.created_date,
        }
    }
}

impl KittyView {
    /// The record after a change of hands: the new owner, and no price.
    pub open spec fn handed_to(self, to: AccountId) -> KittyView {
        KittyView { owner: to, price: None, ..self }
    }

    /// The record with another price, or none.
    pub open spec fn priced(self, price: Option<Balance>) -> KittyView {
        KittyView { price, ..self }
    }
}

impl Kitty {
    /// A kitty that was just minted: it belongs to `who` and is not for sale.
    pub fn new(who: AccountId, dna: KittyId, gender: Gender, created_date: Moment) -> (kitty: Self)
        ensures
            kitty@ == (KittyView { dna, owner: who, price: None, gender, created_date }),
    {
        Kitty { dna, owner: who, price: None, gender, created_date }
    }

    pub fn dna(&self) -> (dna: KittyId)
        ensures
            dna == self@.dna,
    {
        self.dna
    }

    pub fn owner(&self) -> (owner: AccountId)
        ensures
            owner == self@.owner,
    {
        self.owner
    }

    pub fn price(&self) -> (price: Option<Balance>)
        ensures
            price == self@.price,
    {
        self.price
    }

    pub fn gender(&self) -> (gender: Gender)
        ensures
            gender == self@.gender,
    {
        self.gender
    }

    pub fn created_date(&self) -> (created_date: Moment)
        ensures
            created_date == self@.created_date,
    {
        self.created_date
    }

    pub fn set_price(&mut self, new_price: Option<Balance>)
        ensures
            final(self)@ == old(self)@.priced(new_price),
    {
        self.price = new_price;
    }

    pub fn set_owner(&mut self, new_owner: AccountId)
        ensures
            final(self)@ == (KittyView { owner: new_owner, ..old(self)@ }),
    {
        self.owner = new_owner
    }
}

} // verus!
