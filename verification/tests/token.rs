use pallet_kitties::token::{Error, Pallet};

#[test]
fn token_ids_count_up_from_zero() {
    let mut pallet = Pallet::new(0);
    assert_eq!(pallet.asset_count(), 0);
    assert_eq!(pallet.create_token(), Ok(0));
    assert_eq!(pallet.create_token(), Ok(1));
    assert_eq!(pallet.asset_count(), 2);
}

#[test]
fn token_ids_run_out_at_the_largest_count() {
    let mut pallet = Pallet::new(u32::MAX - 1);
    assert_eq!(pallet.create_token(), Ok(u32::MAX - 1));
    assert_eq!(pallet.asset_count(), u32::MAX);
    assert_eq!(pallet.create_token(), Err(Error::AssetLimited));
    assert_eq!(pallet.asset_count(), u32::MAX);
}
