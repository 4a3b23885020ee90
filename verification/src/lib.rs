//! A registry of kitties: uniquely identified assets with an owner, an optional
//! sale price and immutable creation attributes.
//!
//! The registry keeps two stores, a table of kitties by fingerprint and an index
//! from each owner to the fingerprints that the owner holds, and changes both
//! together or not at all.

pub mod asset_table;
pub mod bounded;
pub mod hashing;
pub mod laws;
pub mod model;
pub mod ownership_index;
pub mod pallet;
pub mod token;
pub mod types;

pub use asset_table::AssetTable;
pub use bounded::MAX_OWNER_KITTY;
pub use ownership_index::OwnershipIndex;
pub use pallet::Pallet;
pub use types::{AccountId, Balance, Error, Event, Gender, Kitty, KittyId, KittyView, Moment, Payment};
