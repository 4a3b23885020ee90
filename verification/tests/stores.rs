use pallet_kitties::ownership_index::find;
use pallet_kitties::types::same_id;
use pallet_kitties::{AssetTable, Error, Gender, Kitty, KittyId, OwnershipIndex};

fn id(n: u8) -> KittyId {
    let mut dna = [0u8; 16];
    dna[15] = n;
    dna
}

#[test]
fn kitty_accessors_return_the_fields() {
    let mut kitty = Kitty::new(7, id(1), Gender::MALE, 99);
    assert_eq!(kitty.dna(), id(1));
    assert_eq!(kitty.owner(), 7);
    assert_eq!(kitty.price(), None);
    assert_eq!(kitty.gender(), Gender::MALE);
    assert_eq!(kitty.created_date(), 99);
    kitty.set_price(Some(12));
    assert_eq!(kitty.price(), Some(12));
    assert_eq!(kitty.owner(), 7);
    kitty.set_owner(8);
    assert_eq!(kitty.owner(), 8);
    assert_eq!(kitty.price(), Some(12));
    kitty.set_price(None);
    assert_eq!(kitty.price(), None);
    assert_eq!(kitty.dna(), id(1));
    assert_eq!(kitty.gender(), Gender::MALE);
    assert_eq!(kitty.created_date(), 99);
}

#[test]
fn same_id_compares_every_byte() {
    assert!(same_id(&id(1), &id(1)));
    assert!(!same_id(&id(1), &id(2)));
    let mut other = id(1);
    other[0] = 1;
    assert!(!same_id(&id(1), &other));
}

#[test]
fn table_returns_what_was_inserted() {
    let mut table = AssetTable::new();
    assert_eq!(table.get(&id(1)), None);
    let first = Kitty::new(1, id(1), Gender::MALE, 0);
    let second = Kitty::new(2, id(2), Gender::FEMALE, 5);
    table.insert(id(1), first);
    table.insert(id(2), second);
    assert_eq!(table.get(&id(1)), Some(first));
    assert_eq!(table.get(&id(2)), Some(second));
    assert_eq!(table.get(&id(3)), None);
}

#[test]
fn table_insert_replaces() {
    let mut table = AssetTable::new();
    let first = Kitty::new(1, id(1), Gender::MALE, 0);
    let mut changed = first;
    changed.set_owner(2);
    table.insert(id(1), first);
    table.insert(id(1), changed);
    assert_eq!(table.get(&id(1)), Some(changed));
}

#[test]
fn table_tells_fingerprints_apart_by_any_byte() {
    let mut table = AssetTable::new();
    let mut high = [0u8; 16];
    high[0] = 1;
    let mut low = [0u8; 16];
    low[15] = 1;
    table.insert(high, Kitty::new(1, high, Gender::FEMALE, 0));
    assert_eq!(table.get(&low), None);
    assert_eq!(table.get(&high).map(|kitty| kitty.owner()), Some(1));
}

#[test]
fn index_of_unknown_owner_is_empty() {
    let index = OwnershipIndex::new();
    assert_eq!(index.list(1), Vec::<KittyId>::new());
    assert!(!index.is_full(1));
}

#[test]
fn index_add_appends_until_full() {
    let mut index = OwnershipIndex::new();
    assert_eq!(index.add(1, id(1)), Ok(()));
    assert_eq!(index.add(1, id(2)), Ok(()));
    assert!(!index.is_full(1));
    assert_eq!(index.add(1, id(3)), Ok(()));
    assert!(index.is_full(1));
    assert_eq!(index.list(1), vec![id(1), id(2), id(3)]);
    assert_eq!(index.add(1, id(4)), Err(Error::OwnerCapacityExceeded));
    assert_eq!(index.list(1), vec![id(1), id(2), id(3)]);
    assert_eq!(index.add(2, id(4)), Ok(()));
    assert_eq!(index.list(2), vec![id(4)]);
}

#[test]
fn index_remove_swaps_with_the_last() {
    let mut index = OwnershipIndex::new();
    for n in 1..=3 {
        assert_eq!(index.add(1, id(n)), Ok(()));
    }
    assert_eq!(index.remove(1, &id(1)), Ok(()));
    assert_eq!(index.list(1), vec![id(3), id(2)]);
    assert_eq!(index.remove(1, &id(2)), Ok(()));
    assert_eq!(index.list(1), vec![id(3)]);
    assert_eq!(index.remove(1, &id(3)), Ok(()));
    assert_eq!(index.list(1), Vec::<KittyId>::new());
    assert!(!index.is_full(1));
    assert_eq!(index.add(1, id(9)), Ok(()));
    assert_eq!(index.list(1), vec![id(9)]);
}

#[test]
fn index_remove_of_absent_id_fails_and_keeps_the_list() {
    let mut index = OwnershipIndex::new();
    assert_eq!(index.remove(1, &id(1)), Err(Error::NotFound));
    assert_eq!(index.add(1, id(1)), Ok(()));
    assert_eq!(index.add(1, id(2)), Ok(()));
    assert_eq!(index.remove(1, &id(3)), Err(Error::NotFound));
    assert_eq!(index.remove(2, &id(1)), Err(Error::NotFound));
    assert_eq!(index.list(1), vec![id(1), id(2)]);
    assert_eq!(index.list(2), Vec::<KittyId>::new());
}

#[test]
fn index_remove_takes_the_first_of_equal_entries() {
    let mut index = OwnershipIndex::new();
    assert_eq!(index.add(1, id(5)), Ok(()));
    assert_eq!(index.add(1, id(6)), Ok(()));
    assert_eq!(index.add(1, id(5)), Ok(()));
    assert_eq!(index.remove(1, &id(5)), Ok(()));
    assert_eq!(index.list(1), vec![id(5), id(6)]);
}

#[test]
fn find_gives_the_first_position() {
    let items = vec![id(4), id(5), id(4)];
    assert_eq!(find(&items, &id(4)), Some(0));
    assert_eq!(find(&items, &id(5)), Some(1));
    assert_eq!(find(&items, &id(6)), None);
    assert_eq!(find(&Vec::new(), &id(4)), None);
}

#[test]
fn only_inconsistent_state_is_fatal() {
    assert!(Error::InconsistentState.is_fatal());
    for error in [
        Error::NotFound,
        Error::NotOwner,
        Error::SelfTransfer,
        Error::NotForSale,
        Error::InsufficientFunds,
        Error::OwnerCapacityExceeded,
        Error::DuplicateIdentity,
    ] {
        assert!(!error.is_fatal());
    }
}
