//! The counter from which a token pallet takes the identifier of each new asset.
//!
//! Creating the asset and setting its metadata is the work of the host's asset
//! handler; what is decided here is which identifier the asset gets and when
//! the identifiers have run out.

use vstd::prelude::*;

verus! {

/// Why a token could not be counted.
#[derive(Clone, Copy, Debug, PartialEq, Eq, Structural)]
pub enum Error {
    /// Every identifier was given out.
    AssetLimited,
}

/// The number of assets created so far, which is also the next identifier.
pub struct Pallet {
    asset_count: u32,
}

impl View for Pallet {
    type V = nat;

    closed spec fn view(&self) -> nat {
        self.asset_count as nat
    }
}

impl Pallet {
    /// A counter that continues from `asset_count`; 0 for a fresh one.
    pub fn new(asset_count: u32) -> (pallet: Self)
        ensures
            pallet@ == asset_count,
    {
        Pallet { asset_count }
    }

    /// How many assets were created, and so the identifier of the next one.
    pub fn asset_count(&self) -> (asset_count: u32)
        ensures
            asset_count == self@,
    {
        self.asset_count
    }

    /// Counts the asset that the host created under the identifier
    /// [`Pallet::asset_count`], and hands that identifier back. At the largest
    /// count nothing changes and the answer is `AssetLimited`.
    pub fn create_token(&mut self) -> (created: Result<u32, Error>)
        ensures
            match created {
                Ok(asset_id) => asset_id == old(self)@ && final(self)@ == old(self)@ + 1,
                Err(e) => e == Error::AssetLimited && old(self)@ == u32::MAX && final(self)@
                    == old(self)@,
            },
    {
        let asset_id = self.asset_count;
        match asset_id.checked_add(1) {
            Some(next_asset_id) => {
                self.asset_count = next_asset_id;
                Ok(asset_id)
            },
            None => Err(Error::AssetLimited),
        }
    }
}

} // verus!
