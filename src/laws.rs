//! Properties of the marketplace that hold across its transitions.
use crate::authority::bump_signs_for;
use crate::listing::{ErrorCode, ListingStatus};
use crate::market::{
    balance_of, buy_step, custody_balance, delist_step, holds, is_active, lemma_buy_keeps_wf,
    lemma_delist_keeps_wf, lemma_list_keeps_wf, lemma_update_keeps_wf, list_step, market_wf,
    update_step, MarketState,
};
use vstd::prelude::*;

verus! {

/// In a well-formed marketplace custody holds one unit of an asset while its
/// listing is active, and none otherwise.
pub proof fn lemma_custody_tracks_listing(s: MarketState, asset: u64)
    requires
        market_wf(s),
    ensures
        custody_balance(s, asset) == (if is_active(s, asset) { 1nat } else { 0nat }),
{
    assert(s.custody.contains(asset) <==> is_active(s, asset));
}

/// Every transition, successful or refused, keeps the invariant, and with it
/// the balance of custody in step with the listings.
pub proof fn lemma_transitions_keep_custody_in_step(
    s: MarketState,
    caller: u64,
    asset: u64,
    price: u64,
    bump: u8,
    other: u64,
)
    requires
        market_wf(s),
    ensures
        market_wf(list_step(s, caller, asset, price, bump).0),
        market_wf(update_step(s, caller, asset, price).0),
        market_wf(buy_step(s, caller, asset, bump).0),
        market_wf(delist_step(s, caller, asset, bump).0),
        custody_balance(list_step(s, caller, asset, price, bump).0, other) == (if is_active(
            list_step(s, caller, asset, price, bump).0,
            other,
        ) { 1nat } else { 0nat }),
        custody_balance(update_step(s, caller, asset, price).0, other) == (if is_active(
            update_step(s, caller, asset, price).0,
            other,
        ) { 1nat } else { 0nat }),
        custody_balance(buy_step(s, caller, asset, bump).0, other) == (if is_active(
            buy_step(s, caller, asset, bump).0,
            other,
        ) { 1nat } else { 0nat }),
        custody_balance(delist_step(s, caller, asset, bump).0, other) == (if is_active(
            delist_step(s, caller, asset, bump).0,
            other,
        ) { 1nat } else { 0nat }),
{
    lemma_list_keeps_wf(s, caller, asset, price, bump);
    lemma_update_keeps_wf(s, caller, asset, price);
    lemma_buy_keeps_wf(s, caller, asset, bump);
    lemma_delist_keeps_wf(s, caller, asset, bump);
    lemma_custody_tracks_listing(list_step(s, caller, asset, price, bump).0, other);
    lemma_custody_tracks_listing(update_step(s, caller, asset, price).0, other);
    lemma_custody_tracks_listing(buy_step(s, caller, asset, bump).0, other);
    lemma_custody_tracks_listing(delist_step(s, caller, asset, bump).0, other);
}

/// A listing is made and repriced only at a positive price; a price of zero
/// is refused with `InvalidPrice` and changes nothing, the earlier price
/// included.
pub proof fn lemma_price_stays_positive(s: MarketState, caller: u64, asset: u64, price: u64, bump: u8)
    ensures
        list_step(s, caller, asset, price, bump).1 is Ok ==> list_step(s, caller, asset, price, bump).0.listings[asset].price > 0,
        update_step(s, caller, asset, price).1 is Ok ==> update_step(s, caller, asset, price).0.listings[asset].price > 0,
        list_step(s, caller, asset, 0, bump) == (s, Err::<(), ErrorCode>(ErrorCode::InvalidPrice)),
        is_active(s, asset) && s.listings[asset].seller == caller ==> update_step(s, caller, asset, 0) == (s, Err::<
            (),
            ErrorCode,
        >(ErrorCode::InvalidPrice)),
{
}

/// On an active listing, a price change or a cancellation by anyone but the
/// seller is refused with `UnauthorizedSeller` and changes nothing.
pub proof fn lemma_only_seller_modifies(s: MarketState, caller: u64, asset: u64, price: u64, bump: u8)
    requires
        is_active(s, asset),
        s.listings[asset].seller != caller,
    ensures
        update_step(s, caller, asset, price) == (s, Err::<(), ErrorCode>(ErrorCode::UnauthorizedSeller)),
        delist_step(s, caller, asset, bump) == (s, Err::<(), ErrorCode>(ErrorCode::UnauthorizedSeller)),
{
}

/// Of two purchases of one active listing, in whichever order the ledger
/// runs them, at most one succeeds. Where the first succeeds the second is
/// refused with `ListingNotActive`, custody ends empty, and the seller is
/// paid the price exactly once.
pub proof fn lemma_no_double_sale(s: MarketState, first: u64, second: u64, asset: u64, bump1: u8, bump2: u8)
    requires
        market_wf(s),
        is_active(s, asset),
    ensures
        ({
            let (s1, r1) = buy_step(s, first, asset, bump1);
            let (s2, r2) = buy_step(s1, second, asset, bump2);
            let seller = s.listings[asset].seller;
            let price = s.listings[asset].price;
            &&& custody_balance(s, asset) == 1
            &&& !(r1 is Ok && r2 is Ok)
            &&& r1 is Ok ==> {
                &&& r2 == Err::<(), ErrorCode>(ErrorCode::ListingNotActive)
                &&& s2 == s1
                &&& custody_balance(s2, asset) == 0
                &&& holds(s2, first, asset)
                &&& first != seller ==> balance_of(s2, seller) == balance_of(s, seller) + price
                &&& first != seller ==> balance_of(s2, first) + price == balance_of(s, first)
            }
        }),
{
    assert(s.custody.contains(asset));
}

/// A purchase whose buyer cannot pay is refused with `InsufficientFunds` and
/// changes nothing: the listing stays active and its asset stays in custody.
pub proof fn lemma_failed_payment_changes_nothing(s: MarketState, buyer: u64, asset: u64, bump: u8)
    requires
        market_wf(s),
        is_active(s, asset),
        balance_of(s, buyer) < s.listings[asset].price,
    ensures
        buy_step(s, buyer, asset, bump) == (s, Err::<(), ErrorCode>(ErrorCode::InsufficientFunds)),
        is_active(buy_step(s, buyer, asset, bump).0, asset),
        custody_balance(buy_step(s, buyer, asset, bump).0, asset) == 1,
{
    assert(s.custody.contains(asset));
}

/// Listing an asset and cancelling the listing with a valid bump gives the
/// asset back to the seller and leaves no active listing; listing it again
/// then succeeds and reaches the same state as the first listing did.
pub proof fn lemma_delist_round_trip(s: MarketState, seller: u64, asset: u64, price: u64, list_bump: u8, bump: u8)
    requires
        list_step(s, seller, asset, price, list_bump).1 is Ok,
        bump_signs_for(s.program, s.authority, bump),
    ensures
        ({
            let (s1, r1) = list_step(s, seller, asset, price, list_bump);
            let (s2, r2) = delist_step(s1, seller, asset, bump);
            &&& r2 is Ok
            &&& holds(s2, seller, asset)
            &&& !is_active(s2, asset)
            &&& list_step(s2, seller, asset, price, list_bump) == (s1, r1)
        }),
{
    let (s1, r1) = list_step(s, seller, asset, price, list_bump);
    let (s2, r2) = delist_step(s1, seller, asset, bump);
    let s3 = list_step(s2, seller, asset, price, list_bump).0;
    assert(s3.listings =~= s1.listings);
    assert(s3.holders =~= s1.holders);
    assert(s3.custody =~= s1.custody);
}

} // verus!
