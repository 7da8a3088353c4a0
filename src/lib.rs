//! An escrow marketplace for unique assets: a seller places an asset in the
//! custody of an address derived from the program's identity and names a
//! price; a buyer pays that price and receives the asset in one step.
use vstd::prelude::*;

pub mod authority;
pub mod index;
pub mod laws;
pub mod listing;
pub mod market;

pub use authority::{check_authority, derive_authority, same_key};
pub use index::{rocket, Route, UpdateListingStatus};
pub use listing::{ErrorCode, Listing, ListingStatus};
pub use market::{BuyNFT, DelistNFT, ListNFT, Marketplace, UpdatePrice};

verus! {

} // verus!
