use pallet_kitties::{Error, Event, Kitty, KittyId, Pallet};

const OWNERS: [u64; 4] = [1, 2, 3, 4];

fn minted(pallet: &mut Pallet, who: u64, block: u64) -> KittyId {
    match pallet.create_kitty(who, &[1u8; 32], Some(7), block, block) {
        Ok(Event::KittyCreated(_, id)) => id,
        other => panic!("mint failed: {:?}", other),
    }
}

fn state(pallet: &Pallet, ids: &[KittyId]) -> (u32, Vec<Option<Kitty>>, Vec<Vec<KittyId>>) {
    (
        pallet.count(),
        ids.iter().map(|id| pallet.kitties(id)).collect(),
        OWNERS.iter().map(|who| pallet.kitty_owner(*who)).collect(),
    )
}

fn assert_agreement(pallet: &Pallet, ids: &[KittyId]) {
    for id in ids {
        let kitty = pallet.kitties(id).expect("every minted kitty stays in the table");
        assert_eq!(kitty.dna(), *id);
        let listings: usize =
            OWNERS.iter().map(|who| pallet.kitty_owner(*who).iter().filter(|held| *held == id).count()).sum();
        assert_eq!(listings, 1);
        assert!(pallet.kitty_owner(kitty.owner()).contains(id));
    }
    for who in OWNERS {
        for held in pallet.kitty_owner(who) {
            assert_eq!(pallet.kitties(&held).map(|kitty| kitty.owner()), Some(who));
        }
    }
}

#[test]
fn table_and_index_agree_after_every_step() {
    let mut pallet = Pallet::new();
    assert_agreement(&pallet, &[]);
    let mut ids = Vec::new();
    for block in 1..=3 {
        ids.push(minted(&mut pallet, 1, block));
        assert_agreement(&pallet, &ids);
    }
    ids.push(minted(&mut pallet, 2, 4));
    assert_agreement(&pallet, &ids);

    assert!(pallet.set_price(1, ids[0], Some(20)).is_ok());
    assert_agreement(&pallet, &ids);
    assert!(pallet.transfer(1, 2, ids[1]).is_ok());
    assert_agreement(&pallet, &ids);
    assert!(pallet.buy(3, ids[0], 20).is_ok());
    assert_agreement(&pallet, &ids);
    assert!(pallet.transfer(2, 3, ids[3]).is_ok());
    assert_agreement(&pallet, &ids);
    assert!(pallet.transfer(3, 1, ids[0]).is_ok());
    assert_agreement(&pallet, &ids);

    assert_eq!(pallet.transfer(1, 1, ids[0]), Err(Error::SelfTransfer));
    assert_eq!(pallet.set_price(4, ids[0], None), Err(Error::NotOwner));
    assert_agreement(&pallet, &ids);
    assert_eq!(pallet.count(), 4);
}

#[test]
fn every_refusal_leaves_the_state_as_it_was() {
    let mut pallet = Pallet::new();
    let a = minted(&mut pallet, 1, 1);
    let b = minted(&mut pallet, 1, 2);
    let c = minted(&mut pallet, 1, 3);
    let d = minted(&mut pallet, 2, 4);
    assert!(pallet.set_price(2, d, Some(40)).is_ok());
    let missing: KittyId = [0xEE; 16];
    let ids = [a, b, c, d, missing];
    let before = state(&pallet, &ids);

    let refusals = [
        pallet.create_kitty(1, &[1u8; 32], Some(7), 5, 5),
        pallet.create_kitty(2, &[1u8; 32], Some(7), 1, 5),
        pallet.set_price(1, missing, Some(1)),
        pallet.set_price(2, a, Some(1)),
        pallet.transfer(1, 2, missing),
        pallet.transfer(2, 3, a),
        pallet.transfer(1, 1, a),
        pallet.transfer(2, 1, d),
        pallet.buy(3, missing, 100),
        pallet.buy(3, a, 100),
        pallet.buy(3, d, 39),
        pallet.buy(2, d, 100),
        pallet.buy(1, d, 100),
    ];
    let expected = [
        Error::OwnerCapacityExceeded,
        Error::DuplicateIdentity,
        Error::NotFound,
        Error::NotOwner,
        Error::NotFound,
        Error::NotOwner,
        Error::SelfTransfer,
        Error::OwnerCapacityExceeded,
        Error::NotFound,
        Error::NotForSale,
        Error::InsufficientFunds,
        Error::SelfTransfer,
        Error::OwnerCapacityExceeded,
    ];
    for (refusal, error) in refusals.iter().zip(expected.iter()) {
        assert_eq!(*refusal, Err(*error));
    }
    assert_eq!(state(&pallet, &ids), before);
}

#[test]
fn a_priced_kitty_loses_its_price_when_it_changes_hands() {
    let mut pallet = Pallet::new();
    let a = minted(&mut pallet, 1, 1);
    let b = minted(&mut pallet, 1, 2);
    assert!(pallet.set_price(1, a, Some(15)).is_ok());
    assert!(pallet.set_price(1, b, Some(25)).is_ok());
    assert!(pallet.transfer(1, 2, a).is_ok());
    assert_eq!(pallet.kitties(&a).unwrap().price(), None);
    assert_eq!(pallet.quote(3, b, 25).map(|payment| payment.amount), Ok(25));
    assert!(pallet.buy(3, b, 25).is_ok());
    assert_eq!(pallet.kitties(&b).unwrap().price(), None);
    assert_eq!(pallet.quote(1, b, 1000), Err(Error::NotForSale));
}

#[test]
fn a_quoted_purchase_goes_through() {
    let mut pallet = Pallet::new();
    let a = minted(&mut pallet, 1, 1);
    assert!(pallet.set_price(1, a, Some(15)).is_ok());
    for (buyer, funds) in [(1u64, 15u128), (2, 14), (2, 15), (3, 1000)] {
        let quoted = pallet.quote(buyer, a, funds);
        let mut copy = Pallet::new();
        assert_eq!(minted(&mut copy, 1, 1), a);
        assert!(copy.set_price(1, a, Some(15)).is_ok());
        assert_eq!(copy.buy(buyer, a, funds).is_ok(), quoted.is_ok());
    }
}
