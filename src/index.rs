//! What an off-chain index of listings is told: the routes it serves and the
//! listed flag it keeps for each asset. The index only mirrors the
//! marketplace and never decides anything.
use crate::listing::{Listing, ListingStatus};
use vstd::prelude::*;

verus! {

/// A change of the listed flag of one asset in the index.
pub struct UpdateListingStatus {
    /// The asset's address as the index writes it.
    pub mint_address: String,
    pub is_listed: bool,
}

impl UpdateListingStatus {
    /// The change that brings the index in line with `listing`: the asset is
    /// listed exactly while the listing is active.
    pub fn from_listing(mint_address: String, listing: &Listing) -> (r: UpdateListingStatus)
        ensures
            r.mint_address@ == mint_address@,
            r.is_listed == (listing.status == ListingStatus::Active),
    {
        UpdateListingStatus { mint_address, is_listed: listing.is_active() }
    }
}

/// The requests the index serves.
#[derive(Clone, Copy, Debug, PartialEq, Eq, Structural)]
pub enum Route {
    /// Reads the assets whose flag says listed.
    GetListedNfts,
    /// Adds an asset, flagged as listed.
    ListNft,
    /// Applies an `UpdateListingStatus`.
    UpdateNftListingStatus,
}

/// The routes the index mounts, in order.
pub fn rocket() -> (r: Vec<Route>)
    ensures
        r@ == seq![Route::GetListedNfts, Route::ListNft, Route::UpdateNftListingStatus],
{
    let mut r: Vec<Route> = Vec::new();
    r.push(Route::GetListedNfts);
    r.push(Route::ListNft);
    r.push(Route::UpdateNftListingStatus);
    r
}

} // verus!
