//! The sale record kept for each asset, and the errors the marketplace reports.
use vstd::prelude::*;

verus! {

/// Where a listing stands in its life: on sale, or ended by a sale or a
/// cancellation.
#[derive(Clone, Copy, Debug, PartialEq, Eq, Structural)]
pub enum ListingStatus {
    Active,
    Sold,
    Cancelled,
}

/// The sale terms of one asset, stored under that asset's identity.
#[derive(Clone, Copy, Debug, PartialEq, Eq, Structural)]
pub struct Listing {
    /// The party paid on a sale, and the only one who may reprice or cancel.
    pub seller: u64,
    /// The asset on sale; never changes once the listing is made.
    pub mint: u64,
    /// The price in the ledger's native unit.
    pub price: u64,
    pub status: ListingStatus,
    /// The derivation bump recorded with the listing.
    pub bump: u8,
}

impl Listing {
    pub fn is_active(&self) -> (r: bool)
        ensures
            r == (self.status == ListingStatus::Active),
    {
        match self.status {
            ListingStatus::Active => true,
            _ => false,
        }
    }
}

/// Why an operation was refused. A refused operation changes nothing.
#[derive(Clone, Copy, Debug, PartialEq, Eq, Structural)]
pub enum ErrorCode {
    /// The asset has no listing on sale.
    ListingNotActive,
    /// The caller is not the listing's seller.
    UnauthorizedSeller,
    /// A price of zero.
    InvalidPrice,
    /// Another party holds the asset.
    OwnershipMismatch,
    /// The asset is already on sale.
    DuplicateListing,
    /// The bump given does not reproduce the custodian's address.
    InvalidAuthority,
    /// The buyer cannot pay the price.
    InsufficientFunds,
    /// Nobody holds the asset outside custody.
    InsufficientBalance,
    /// Custody holds no unit of the asset.
    EmptyCustody,
    /// Crediting the seller would exceed the largest representable balance.
    BalanceOverflow,
}

} // verus!
