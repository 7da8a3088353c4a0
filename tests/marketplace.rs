use nft_marketplace::{
    BuyNFT, DelistNFT, ErrorCode, ListNFT, ListingStatus, Marketplace, UpdatePrice,
};
use std::collections::HashMap;

const PROGRAM: [u8; 32] = [7u8; 32];
const SELLER: u64 = 10;
const BUYER: u64 = 20;
const SECOND_BUYER: u64 = 30;
const ASSET: u64 = 1;

fn market_with(seller_balance: u64, buyer_balance: u64) -> Marketplace {
    let mut holders = HashMap::new();
    holders.insert(ASSET, SELLER);
    holders.insert(2, BUYER);
    let mut balances = HashMap::new();
    balances.insert(SELLER, seller_balance);
    balances.insert(BUYER, buyer_balance);
    balances.insert(SECOND_BUYER, 1_000);
    Marketplace::new(PROGRAM, holders, balances).expect("a custodian exists for this program")
}

fn market() -> Marketplace {
    market_with(0, 1_000)
}

fn list(m: &mut Marketplace, seller: u64, asset: u64, price: u64) -> Result<(), ErrorCode> {
    m.list_nft(ListNFT { seller, mint: asset }, price, 0)
}

fn buy(m: &mut Marketplace, buyer: u64, asset: u64) -> Result<(), ErrorCode> {
    let bump = m.authority_bump();
    m.buy_nft(BuyNFT { buyer, mint: asset }, bump)
}

#[test]
fn update_then_buy_pays_the_new_price() {
    let mut m = market();
    assert_eq!(list(&mut m, SELLER, ASSET, 100), Ok(()));
    assert_eq!(m.update_price(UpdatePrice { seller: SELLER, mint: ASSET }, 150), Ok(()));
    assert_eq!(buy(&mut m, BUYER, ASSET), Ok(()));
    assert_eq!(m.holder_of(ASSET), Some(BUYER));
    assert_eq!(m.balance(SELLER), 150);
    assert_eq!(m.balance(BUYER), 850);
    assert_eq!(m.listing(ASSET).unwrap().status, ListingStatus::Sold);
    assert_eq!(m.custody_balance(ASSET), 0);
}

#[test]
fn second_buy_fails_with_listing_not_active() {
    let mut m = market();
    assert_eq!(list(&mut m, SELLER, ASSET, 100), Ok(()));
    assert_eq!(buy(&mut m, BUYER, ASSET), Ok(()));
    assert_eq!(buy(&mut m, SECOND_BUYER, ASSET), Err(ErrorCode::ListingNotActive));
    assert_eq!(m.holder_of(ASSET), Some(BUYER));
    assert_eq!(m.balance(SELLER), 100);
    assert_eq!(m.balance(SECOND_BUYER), 1_000);
    assert_eq!(m.custody_balance(ASSET), 0);
}

#[test]
fn custody_holds_the_asset_only_while_listed() {
    let mut m = market();
    assert_eq!(m.custody_balance(ASSET), 0);
    assert_eq!(list(&mut m, SELLER, ASSET, 100), Ok(()));
    assert_eq!(m.custody_balance(ASSET), 1);
    assert_eq!(m.holder_of(ASSET), None);
    assert_eq!(buy(&mut m, BUYER, ASSET), Ok(()));
    assert_eq!(m.custody_balance(ASSET), 0);
}

#[test]
fn zero_price_is_refused_and_keeps_the_old_price() {
    let mut m = market();
    assert_eq!(list(&mut m, SELLER, ASSET, 0), Err(ErrorCode::InvalidPrice));
    assert_eq!(m.listing(ASSET), None);
    assert_eq!(m.holder_of(ASSET), Some(SELLER));
    assert_eq!(list(&mut m, SELLER, ASSET, 100), Ok(()));
    assert_eq!(
        m.update_price(UpdatePrice { seller: SELLER, mint: ASSET }, 0),
        Err(ErrorCode::InvalidPrice)
    );
    assert_eq!(m.listing(ASSET).unwrap().price, 100);
}

#[test]
fn only_the_seller_may_reprice_or_delist() {
    let mut m = market();
    assert_eq!(list(&mut m, SELLER, ASSET, 100), Ok(()));
    let bump = m.authority_bump();
    assert_eq!(
        m.update_price(UpdatePrice { seller: BUYER, mint: ASSET }, 50),
        Err(ErrorCode::UnauthorizedSeller)
    );
    assert_eq!(
        m.delist_nft(DelistNFT { seller: BUYER, mint: ASSET }, bump),
        Err(ErrorCode::UnauthorizedSeller)
    );
    let l = m.listing(ASSET).unwrap();
    assert_eq!(l.price, 100);
    assert_eq!(l.status, ListingStatus::Active);
    assert_eq!(m.custody_balance(ASSET), 1);
}

#[test]
fn failed_payment_leaves_the_listing_active() {
    let mut m = market_with(0, 99);
    assert_eq!(list(&mut m, SELLER, ASSET, 100), Ok(()));
    assert_eq!(buy(&mut m, BUYER, ASSET), Err(ErrorCode::InsufficientFunds));
    assert_eq!(m.listing(ASSET).unwrap().status, ListingStatus::Active);
    assert_eq!(m.custody_balance(ASSET), 1);
    assert_eq!(m.balance(BUYER), 99);
    assert_eq!(m.balance(SELLER), 0);
}

#[test]
fn delist_then_list_again() {
    let mut m = market();
    assert_eq!(list(&mut m, SELLER, ASSET, 100), Ok(()));
    let first = m.listing(ASSET);
    let bump = m.authority_bump();
    assert_eq!(m.delist_nft(DelistNFT { seller: SELLER, mint: ASSET }, bump), Ok(()));
    assert_eq!(m.holder_of(ASSET), Some(SELLER));
    assert_eq!(m.custody_balance(ASSET), 0);
    assert_eq!(m.listing(ASSET).unwrap().status, ListingStatus::Cancelled);
    assert_eq!(list(&mut m, SELLER, ASSET, 100), Ok(()));
    assert_eq!(m.listing(ASSET), first);
    assert_eq!(m.custody_balance(ASSET), 1);
    assert_eq!(m.holder_of(ASSET), None);
}

#[test]
fn delist_of_a_sold_listing_fails() {
    let mut m = market();
    assert_eq!(list(&mut m, SELLER, ASSET, 100), Ok(()));
    assert_eq!(buy(&mut m, BUYER, ASSET), Ok(()));
    let bump = m.authority_bump();
    assert_eq!(
        m.delist_nft(DelistNFT { seller: SELLER, mint: ASSET }, bump),
        Err(ErrorCode::ListingNotActive)
    );
    assert_eq!(
        m.update_price(UpdatePrice { seller: SELLER, mint: ASSET }, 10),
        Err(ErrorCode::ListingNotActive)
    );
}

#[test]
fn listing_twice_is_a_duplicate() {
    let mut m = market();
    assert_eq!(list(&mut m, SELLER, ASSET, 100), Ok(()));
    assert_eq!(list(&mut m, SELLER, ASSET, 200), Err(ErrorCode::DuplicateListing));
    assert_eq!(m.listing(ASSET).unwrap().price, 100);
}

#[test]
fn listing_an_asset_of_another_party_is_refused() {
    let mut m = market();
    assert_eq!(list(&mut m, SELLER, 2, 100), Err(ErrorCode::OwnershipMismatch));
    assert_eq!(list(&mut m, SELLER, 99, 100), Err(ErrorCode::InsufficientBalance));
    assert_eq!(m.holder_of(2), Some(BUYER));
}

#[test]
fn a_wrong_bump_cannot_release_custody() {
    let mut m = market();
    assert_eq!(list(&mut m, SELLER, ASSET, 100), Ok(()));
    let wrong = m.authority_bump().wrapping_add(1);
    assert_eq!(
        m.buy_nft(BuyNFT { buyer: BUYER, mint: ASSET }, wrong),
        Err(ErrorCode::InvalidAuthority)
    );
    assert_eq!(
        m.delist_nft(DelistNFT { seller: SELLER, mint: ASSET }, wrong),
        Err(ErrorCode::InvalidAuthority)
    );
    assert_eq!(m.balance(BUYER), 1_000);
    assert_eq!(m.custody_balance(ASSET), 1);
    assert_eq!(m.listing(ASSET).unwrap().status, ListingStatus::Active);
}

#[test]
fn a_seller_balance_that_would_overflow_is_refused() {
    let mut m = market_with(u64::MAX - 50, 1_000);
    assert_eq!(list(&mut m, SELLER, ASSET, 100), Ok(()));
    assert_eq!(buy(&mut m, BUYER, ASSET), Err(ErrorCode::BalanceOverflow));
    assert_eq!(m.balance(BUYER), 1_000);
    assert_eq!(m.custody_balance(ASSET), 1);
}

#[test]
fn a_seller_may_buy_back_at_no_cost() {
    let mut m = market_with(500, 1_000);
    assert_eq!(list(&mut m, SELLER, ASSET, 100), Ok(()));
    assert_eq!(buy(&mut m, SELLER, ASSET), Ok(()));
    assert_eq!(m.balance(SELLER), 500);
    assert_eq!(m.holder_of(ASSET), Some(SELLER));
}

#[test]
fn a_new_marketplace_is_empty() {
    let m = market();
    assert_eq!(m.listing(ASSET), None);
    assert_eq!(m.holder_of(ASSET), Some(SELLER));
    assert_eq!(m.balance(BUYER), 1_000);
    assert_eq!(m.balance(99), 0);
    assert!(m.authority_bump() >= 1);
}
