//! What holds of the registry whatever is asked of it: the table and the index
//! stay in agreement, a refused operation changes nothing, an owner's list is
//! bounded, and a kitty that changes hands loses its price.

use crate::bounded::{swap_removed, MAX_OWNER_KITTY};
use crate::model::State;
use crate::ownership_index::{first_position, is_first_position, owned_by};
use crate::types::{AccountId, Balance, Error, Event, KittyId, Moment, Payment};
use vstd::prelude::*;

verus! {

proof fn lemma_push_contains(s: Seq<KittyId>, x: KittyId)
    ensures
        forall|y: KittyId| #[trigger] s.push(x).contains(y) <==> s.contains(y) || y == x,
{
    assert forall|y: KittyId| #[trigger] s.push(x).contains(y) <==> s.contains(y) || y == x by {
        if s.push(x).contains(y) {
            let i = choose|i: int| 0 <= i < s.push(x).len() && s.push(x)[i] == y;
            if i < s.len() {
                assert(s[i] == y);
            }
        }
        if s.contains(y) {
            let i = choose|i: int| 0 <= i < s.len() && s[i] == y;
            assert(s.push(x)[i] == y);
        }
        if y == x {
            assert(s.push(x)[s.len() as int] == y);
        }
    }
}

proof fn lemma_push_no_duplicates(s: Seq<KittyId>, x: KittyId)
    requires
        s.no_duplicates(),
        !s.contains(x),
    ensures
        s.push(x).no_duplicates(),
{
    assert forall|i: int, j: int|
        0 <= i < s.push(x).len() && 0 <= j < s.push(x).len() && i != j implies s.push(x)[i]
        != s.push(x)[j] by {
        if i < s.len() && j < s.len() {
        } else if i < s.len() {
            assert(s.contains(s[i]));
        } else {
            assert(s.contains(s[j]));
        }
    }
}

proof fn lemma_first_position_exists(s: Seq<KittyId>, id: KittyId)
    requires
        s.contains(id),
    ensures
        is_first_position(s, id, first_position(s, id)),
    decreases s.len(),
{
    let i = choose|i: int| 0 <= i < s.len() && s[i] == id;
    lemma_first_position_below(s, id, i);
}

proof fn lemma_first_position_below(s: Seq<KittyId>, id: KittyId, i: int)
    requires
        0 <= i < s.len(),
        s[i] == id,
    ensures
        is_first_position(s, id, first_position(s, id)),
    decreases i,
{
    if forall|j: int| 0 <= j < i ==> s[j] != id {
        assert(is_first_position(s, id, i));
    } else {
        let j = choose|j: int| 0 <= j < i && s[j] == id;
        lemma_first_position_below(s, id, j);
    }
}

/// Taking the item at `p` out of a list without repeats leaves every other
/// item, that item nowhere, and no repeats.
proof fn lemma_swap_removed(s: Seq<KittyId>, p: int)
    requires
        s.no_duplicates(),
        0 <= p < s.len(),
    ensures
        swap_removed(s, p).no_duplicates(),
        swap_removed(s, p).len() == s.len() - 1,
        forall|y: KittyId| #[trigger]
            swap_removed(s, p).contains(y) <==> s.contains(y) && y != s[p],
{
    let r = swap_removed(s, p);
    let last = s.len() - 1;
    assert forall|i: int| 0 <= i < r.len() implies r[i] == (if i == p {
        s[last]
    } else {
        s[i]
    }) by {}
    assert forall|i: int, j: int| 0 <= i < r.len() && 0 <= j < r.len() && i != j implies r[i]
        != r[j] by {}
    assert forall|y: KittyId| #[trigger] r.contains(y) <==> s.contains(y) && y != s[p] by {
        if r.contains(y) {
            let i = choose|i: int| 0 <= i < r.len() && r[i] == y;
            if i == p {
                assert(s[last] == y);
            } else {
                assert(s[i] == y);
            }
        }
        if s.contains(y) && y != s[p] {
            let i = choose|i: int| 0 <= i < s.len() && s[i] == y;
            if i == last {
                assert(r[p] == y);
            } else {
                assert(r[i] == y);
            }
        }
    }
}

/// Before anything is minted the table and the index agree.
pub proof fn law_empty_is_consistent()
    ensures
        State::empty().consistent(),
{
}

/// In a consistent registry a kitty is listed by its owner and by nobody else,
/// and what anybody lists is a kitty of the table.
pub proof fn law_one_owner(s: State, who: AccountId, id: KittyId)
    requires
        s.consistent(),
    ensures
        s.holdings(who).contains(id) <==> s.kitties.contains_key(id) && s.kitties[id].owner
            == who,
{
    if s.holdings(who).contains(id) {
        let i = choose|i: int| 0 <= i < s.holdings(who).len() && s.holdings(who)[i] == id;
        assert(s.kitties.contains_key(s.holdings(who)[i]));
    }
}

/// Minting keeps the table and the index in agreement.
pub proof fn law_create_kitty_keeps_consistent(s: State, who: AccountId, dna: KittyId, now: Moment)
    requires
        s.consistent(),
    ensures
        s.create_kitty(who, dna, now).0.consistent(),
{
    let t = s.create_kitty(who, dna, now).0;
    if s.create_kitty(who, dna, now).1 is Ok {
        let held = s.holdings(who);
        law_one_owner(s, who, dna);
        lemma_push_contains(held, dna);
        lemma_push_no_duplicates(held, dna);
        assert(t.holdings(who) == held.push(dna));
        assert forall|other: AccountId| other != who implies t.holdings(other) == s.holdings(
            other,
        ) by {}
        assert forall|id: KittyId| #[trigger] t.kitties.contains_key(id) implies t.kitties[id].dna
            == id && t.holdings(t.kitties[id].owner).contains(id) by {
            if id != dna {
                assert(s.kitties.contains_key(id));
                assert(s.holdings(s.kitties[id].owner).contains(id));
            }
        }
        assert forall|other: AccountId, i: int| 0 <= i < t.holdings(other).len() implies
            t.kitties.contains_key(#[trigger] t.holdings(other)[i]) && t.kitties[t.holdings(
            other,
        )[i]].owner == other by {
            if other == who && i == held.len() {
            } else {
                assert(t.holdings(other)[i] == s.holdings(other)[i]);
                assert(s.kitties.contains_key(s.holdings(other)[i]));
            }
        }
        assert forall|other: AccountId| #[trigger] t.holdings(other).no_duplicates() by {
            assert(s.holdings(other).no_duplicates());
        }
    }
}

/// Setting a price keeps the table and the index in agreement.
pub proof fn law_set_price_keeps_consistent(
    s: State,
    who: AccountId,
    id: KittyId,
    price: Option<Balance>,
)
    requires
        s.consistent(),
    ensures
        s.set_price(who, id, price).0.consistent(),
{
    let t = s.set_price(who, id, price).0;
    if s.set_price(who, id, price).1 is Ok {
        assert forall|other: AccountId| t.holdings(other) == s.holdings(other) by {}
        assert forall|k: KittyId| #[trigger] t.kitties.contains_key(k) implies t.kitties[k].dna
            == k && t.holdings(t.kitties[k].owner).contains(k) by {
            assert(s.kitties.contains_key(k));
        }
        assert forall|other: AccountId, i: int| 0 <= i < t.holdings(other).len() implies
            t.kitties.contains_key(#[trigger] t.holdings(other)[i]) && t.kitties[t.holdings(
            other,
        )[i]].owner == other by {
            assert(s.kitties.contains_key(s.holdings(other)[i]));
        }
        assert forall|other: AccountId| #[trigger] t.holdings(other).no_duplicates() by {
            assert(s.holdings(other).no_duplicates());
        }
    }
}

/// A change of hands keeps the table and the index in agreement.
pub proof fn law_transfer_to_keeps_consistent(s: State, id: KittyId, to: AccountId)
    requires
        s.consistent(),
    ensures
        s.transfer_to(id, to).0.consistent(),
{
    let t = s.transfer_to(id, to).0;
    if s.transfer_to(id, to).1 is Ok {
        let from = s.kitties[id].owner;
        let held = s.holdings(from);
        let p = first_position(held, id);
        lemma_first_position_exists(held, id);
        assert(s.holdings(from).no_duplicates());
        lemma_swap_removed(held, p);
        let rest = swap_removed(held, p);
        let released = s.released(from, id);
        let joined = owned_by(released, to);
        law_one_owner(s, to, id);
        assert(!joined.contains(id));
        assert(joined.no_duplicates()) by {
            assert(s.holdings(to).no_duplicates());
        }
        lemma_push_contains(joined, id);
        lemma_push_no_duplicates(joined, id);
        assert(t.holdings(to) == joined.push(id));
        assert forall|other: AccountId| other != to && other != from implies t.holdings(other)
            == s.holdings(other) by {}
        if to != from {
            assert(t.holdings(from) == rest);
            assert(joined == s.holdings(to));
        } else {
            assert(joined == rest);
        }
        assert forall|k: KittyId| #[trigger] t.kitties.contains_key(k) implies t.kitties[k].dna
            == k && t.holdings(t.kitties[k].owner).contains(k) by {
            if k != id {
                assert(s.kitties.contains_key(k));
                let o = s.kitties[k].owner;
                assert(s.holdings(o).contains(k));
                if o == from {
                    assert(rest.contains(k));
                }
            }
        }
        assert forall|other: AccountId, i: int| 0 <= i < t.holdings(other).len() implies
            t.kitties.contains_key(#[trigger] t.holdings(other)[i]) && t.kitties[t.holdings(
            other,
        )[i]].owner == other by {
            let k = t.holdings(other)[i];
            assert(t.holdings(other).contains(k));
            if k != id {
                if other == to {
                    assert(joined.contains(k));
                }
                if other == from {
                    assert(rest.contains(k));
                }
                assert(s.holdings(other).contains(k));
                law_one_owner(s, other, k);
            } else {
                law_one_owner(s, other, id);
                if other != to {
                    if other == from {
                        assert(!rest.contains(id));
                    } else {
                        assert(s.holdings(other).contains(id));
                    }
                }
            }
        }
        assert forall|other: AccountId| #[trigger] t.holdings(other).no_duplicates() by {
            assert(s.holdings(other).no_duplicates());
        }
    }
}

/// A transfer keeps the table and the index in agreement.
pub proof fn law_transfer_keeps_consistent(s: State, from: AccountId, to: AccountId, id: KittyId)
    requires
        s.consistent(),
    ensures
        s.transfer(from, to, id).0.consistent(),
{
    law_transfer_to_keeps_consistent(s, id, to);
}

/// A purchase keeps the table and the index in agreement.
pub proof fn law_buy_keeps_consistent(s: State, buyer: AccountId, id: KittyId, free_balance: Balance)
    requires
        s.consistent(),
    ensures
        s.buy(buyer, id, free_balance).0.consistent(),
{
    law_transfer_to_keeps_consistent(s, id, buyer);
}

/// In a consistent registry no operation answers `InconsistentState`.
pub proof fn law_consistent_never_inconsistent(
    s: State,
    from: AccountId,
    to: AccountId,
    id: KittyId,
    free_balance: Balance,
)
    requires
        s.consistent(),
    ensures
        s.transfer(from, to, id).1 != Err::<Event, Error>(Error::InconsistentState),
        s.buy(to, id, free_balance).1 != Err::<Event, Error>(
            Error::InconsistentState,
        ),
        s.quote(to, id, free_balance) != Err::<Payment, Error>(
            Error::InconsistentState,
        ),
{
}

/// An operation that answers with an error leaves the counter, the table and
/// the index as they were.
pub proof fn law_failure_changes_nothing(
    s: State,
    who: AccountId,
    to: AccountId,
    id: KittyId,
    now: Moment,
    price: Option<Balance>,
    free_balance: Balance,
)
    ensures
        s.create_kitty(who, id, now).1 is Err ==> s.create_kitty(who, id, now).0 == s,
        s.set_price(who, id, price).1 is Err ==> s.set_price(who, id, price).0 == s,
        s.transfer(who, to, id).1 is Err ==> s.transfer(who, to, id).0 == s,
        s.buy(who, id, free_balance).1 is Err ==> s.buy(who, id, free_balance).0 == s,
{
}

/// Minting for an owner who holds the maximum is refused with
/// `OwnerCapacityExceeded` and changes nothing.
pub proof fn law_mint_at_capacity(s: State, who: AccountId, dna: KittyId, now: Moment)
    requires
        s.holdings(who).len() >= MAX_OWNER_KITTY,
    ensures
        s.create_kitty(who, dna, now) == (
            s,
            Err::<Event, Error>(Error::OwnerCapacityExceeded),
        ),
{
}

/// Minting a fingerprint that the table does not have yet, for an owner below
/// the maximum, succeeds: the owner holds exactly one kitty more, the new one.
pub proof fn law_mint_below_capacity(s: State, who: AccountId, dna: KittyId, now: Moment)
    requires
        s.holdings(who).len() < MAX_OWNER_KITTY,
        !s.kitties.contains_key(dna),
    ensures
        s.create_kitty(who, dna, now).1 is Ok,
        s.create_kitty(who, dna, now).0.holdings(who) == s.holdings(who).push(dna),
        s.create_kitty(who, dna, now).0.holdings(who).len() == s.holdings(who).len() + 1,
{
}

/// A transfer to an owner who holds the maximum fails and changes nothing; the
/// error is `OwnerCapacityExceeded` unless an earlier test already refused the
/// transfer: the kitty is not there, the sender does not own it or is the
/// receiver, or the sender's list lacks it.
pub proof fn law_transfer_into_full(s: State, from: AccountId, to: AccountId, id: KittyId)
    requires
        s.holdings(to).len() >= MAX_OWNER_KITTY,
    ensures
        s.transfer(from, to, id).1 is Err,
        s.transfer(from, to, id).0 == s,
        s.kitties.contains_key(id) && s.kitties[id].owner == from && to != from && s.holdings(
            from,
        ).contains(id) ==> s.transfer(from, to, id).1 == Err::<Event, Error>(
            Error::OwnerCapacityExceeded,
        ),
{
}

/// A purchase by a buyer who holds the maximum fails and changes nothing; the
/// error is `OwnerCapacityExceeded` unless an earlier test already refused the
/// purchase: the kitty is not there, has no price, costs more than the buyer can
/// spend or is the buyer's own, or its owner's list lacks it.
pub proof fn law_buy_into_full(
    s: State,
    buyer: AccountId,
    id: KittyId,
    free_balance: Balance,
    price: Balance,
)
    requires
        s.holdings(buyer).len() >= MAX_OWNER_KITTY,
    ensures
        s.buy(buyer, id, free_balance).1 is Err,
        s.buy(buyer, id, free_balance).0 == s,
        s.kitties.contains_key(id) && s.kitties[id].price == Some(price) && price <= free_balance
            && s.kitties[id].owner != buyer && s.holdings(s.kitties[id].owner).contains(id)
            ==> s.buy(buyer, id, free_balance).1 == Err::<Event, Error>(
            Error::OwnerCapacityExceeded,
        ),
{
}

/// After a transfer or a purchase that succeeded the kitty belongs to the
/// receiver and has no price.
pub proof fn law_price_reset(
    s: State,
    from: AccountId,
    to: AccountId,
    id: KittyId,
    free_balance: Balance,
)
    ensures
        s.transfer(from, to, id).1 is Ok ==> s.transfer(from, to, id).0.kitties[id].price is None
            && s.transfer(from, to, id).0.kitties[id].owner == to,
        s.buy(to, id, free_balance).1 is Ok ==> s.buy(to, id, free_balance).0.kitties[id].price
            is None && s.buy(to, id, free_balance).0.kitties[id].owner == to,
{
}

/// No operation takes a kitty out of the table or changes what was fixed when
/// it was minted: its fingerprint, its gender and its date of creation. Setting
/// a price changes neither the owner nor the index.
pub proof fn law_creation_attributes_are_kept(
    s: State,
    who: AccountId,
    to: AccountId,
    dna: KittyId,
    now: Moment,
    price: Option<Balance>,
    free_balance: Balance,
    id: KittyId,
    kept: KittyId,
)
    requires
        s.kitties.contains_key(kept),
    ensures
        s.create_kitty(who, dna, now).0.kitties.contains_key(kept),
        s.create_kitty(who, dna, now).0.kitties[kept] == s.kitties[kept],
        s.set_price(who, id, price).0.kitties.contains_key(kept),
        s.set_price(who, id, price).0.kitties[kept] == if s.set_price(who, id, price).1 is Ok
            && kept == id {
            s.kitties[kept].priced(price)
        } else {
            s.kitties[kept]
        },
        s.set_price(who, id, price).0.owned == s.owned,
        s.transfer(who, to, id).0.kitties.contains_key(kept),
        s.transfer(who, to, id).0.kitties[kept] == if s.transfer(who, to, id).1 is Ok && kept
            == id {
            s.kitties[kept].handed_to(to)
        } else {
            s.kitties[kept]
        },
        s.buy(to, id, free_balance).0.kitties.contains_key(kept),
        s.buy(to, id, free_balance).0.kitties[kept] == if s.buy(to, id, free_balance).1 is Ok
            && kept == id {
            s.kitties[kept].handed_to(to)
        } else {
            s.kitties[kept]
        },
{
}

/// The counter of mints never goes down: a mint that succeeds raises it by one
/// until it has reached the largest value, and nothing else changes it.
pub proof fn law_counter_never_decreases(
    s: State,
    who: AccountId,
    to: AccountId,
    id: KittyId,
    now: Moment,
    price: Option<Balance>,
    free_balance: Balance,
)
    ensures
        s.create_kitty(who, id, now).0.count >= s.count,
        s.create_kitty(who, id, now).1 is Ok && s.count < u32::MAX ==> s.create_kitty(
            who,
            id,
            now,
        ).0.count == s.count + 1,
        s.set_price(who, id, price).0.count == s.count,
        s.transfer(who, to, id).0.count == s.count,
        s.buy(who, id, free_balance).0.count == s.count,
{
}

/// A purchase that was quoted goes through: as long as the registry is the
/// same, `buy` succeeds exactly when `quote` does.
pub proof fn law_quote_decides_buy(s: State, buyer: AccountId, id: KittyId, free_balance: Balance)
    ensures
        s.buy(buyer, id, free_balance).1 is Ok <==> s.quote(buyer, id, free_balance) is Ok,
        s.quote(buyer, id, free_balance) matches Ok(payment) ==> payment.from == buyer
            && payment.to == s.kitties[id].owner && s.kitties[id].price == Some(payment.amount)
            && payment.amount <= free_balance,
{
}

} // verus!
