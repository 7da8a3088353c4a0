//! The listing store, the custody of listed assets, the native balances, and
//! the four transitions that move between them.
use crate::authority::{bump_signs_for, check_authority, derive_authority};
use crate::listing::{ErrorCode, Listing, ListingStatus};
use std::collections::{HashMap, HashSet};
use vstd::prelude::*;

verus! {

broadcast use vstd::std_specs::hash::group_hash_axioms;

/// The accounts of a listing: the seller who signs, and the asset.
#[derive(Clone, Copy, Debug, PartialEq, Eq, Structural)]
pub struct ListNFT {
    pub seller: u64,
    pub mint: u64,
}

/// The accounts of a price change: the party who signs, and the asset.
#[derive(Clone, Copy, Debug, PartialEq, Eq, Structural)]
pub struct UpdatePrice {
    pub seller: u64,
    pub mint: u64,
}

/// The accounts of a purchase: the buyer who signs and pays, and the asset.
#[derive(Clone, Copy, Debug, PartialEq, Eq, Structural)]
pub struct BuyNFT {
    pub buyer: u64,
    pub mint: u64,
}

/// The accounts of a cancellation: the party who signs, and the asset.
#[derive(Clone, Copy, Debug, PartialEq, Eq, Structural)]
pub struct DelistNFT {
    pub seller: u64,
    pub mint: u64,
}

/// The whole marketplace as values.
pub struct MarketState {
    /// Listing records, by asset.
    pub listings: Map<u64, Listing>,
    /// For each asset outside custody, the party that holds it.
    pub holders: Map<u64, u64>,
    /// The assets held in custody.
    pub custody: Set<u64>,
    /// Native balances; a party absent here holds nothing.
    pub balances: Map<u64, u64>,
    /// The program's own identity.
    pub program: Seq<u8>,
    /// The custodian address derived from the program's identity.
    pub authority: Seq<u8>,
}

pub open spec fn is_active(s: MarketState, a: u64) -> bool {
    s.listings.contains_key(a) && s.listings[a].status == ListingStatus::Active
}

/// Units of asset `a` in custody.
pub open spec fn custody_balance(s: MarketState, a: u64) -> nat {
    if s.custody.contains(a) {
        1
    } else {
        0
    }
}

pub open spec fn holds(s: MarketState, p: u64, a: u64) -> bool {
    s.holders.contains_key(a) && s.holders[a] == p
}

pub open spec fn balance_of(s: MarketState, p: u64) -> nat {
    if s.balances.contains_key(p) {
        s.balances[p] as nat
    } else {
        0
    }
}

/// The invariant of the marketplace: an asset is in custody exactly while its
/// listing is active, an asset in custody is held by nobody else, each record
/// sits under its own asset, and an active listing has a positive price.
pub open spec fn market_wf(s: MarketState) -> bool {
    &&& forall|a: u64| #[trigger] s.custody.contains(a) <==> is_active(s, a)
    &&& forall|a: u64| #[trigger] s.custody.contains(a) ==> !s.holders.contains_key(a)
    &&& forall|a: u64| #[trigger] s.listings.contains_key(a) ==> s.listings[a].mint == a
    &&& forall|a: u64| #[trigger] is_active(s, a) ==> s.listings[a].price > 0
}

/// Balances after `amount` moves from `from` to `to`.
pub open spec fn pay(s: MarketState, from: u64, to: u64, amount: u64) -> Map<u64, u64> {
    if from == to {
        s.balances
    } else {
        s.balances.insert(from, (balance_of(s, from) - amount) as u64).insert(to, (balance_of(s, to) + amount) as u64)
    }
}

/// What `List` answers.
pub open spec fn list_outcome(s: MarketState, seller: u64, asset: u64, price: u64) -> Result<(), ErrorCode> {
    if price == 0 {
        Err(ErrorCode::InvalidPrice)
    } else if is_active(s, asset) {
        Err(ErrorCode::DuplicateListing)
    } else if !s.holders.contains_key(asset) {
        Err(ErrorCode::InsufficientBalance)
    } else if s.holders[asset] != seller {
        Err(ErrorCode::OwnershipMismatch)
    } else {
        Ok(())
    }
}

/// `List`: the asset moves into custody under a new active listing.
pub open spec fn list_step(s: MarketState, seller: u64, asset: u64, price: u64, bump: u8) -> (MarketState, Result<(), ErrorCode>) {
    let r = list_outcome(s, seller, asset, price);
    if r is Ok {
        (MarketState {
            listings: s.listings.insert(
                asset,
                Listing { seller, mint: asset, price, status: ListingStatus::Active, bump },
            ),
            holders: s.holders.remove(asset),
            custody: s.custody.insert(asset),
            ..s
        }, r)
    } else {
        (s, r)
    }
}

/// What `UpdatePrice` answers.
pub open spec fn update_outcome(s: MarketState, caller: u64, asset: u64, price: u64) -> Result<(), ErrorCode> {
    if !is_active(s, asset) {
        Err(ErrorCode::ListingNotActive)
    } else if s.listings[asset].seller != caller {
        Err(ErrorCode::UnauthorizedSeller)
    } else if price == 0 {
        Err(ErrorCode::InvalidPrice)
    } else {
        Ok(())
    }
}

/// `UpdatePrice`: only the price of the listing changes.
pub open spec fn update_step(s: MarketState, caller: u64, asset: u64, price: u64) -> (MarketState, Result<(), ErrorCode>) {
    let r = update_outcome(s, caller, asset, price);
    if r is Ok {
        (MarketState { listings: s.listings.insert(asset, Listing { price, ..s.listings[asset] }), ..s }, r)
    } else {
        (s, r)
    }
}

/// What `Buy` answers: the payment is checked before the release from custody.
pub open spec fn buy_outcome(s: MarketState, buyer: u64, asset: u64, bump: u8) -> Result<(), ErrorCode> {
    if !is_active(s, asset) {
        Err(ErrorCode::ListingNotActive)
    } else if balance_of(s, buyer) < s.listings[asset].price {
        Err(ErrorCode::InsufficientFunds)
    } else if buyer != s.listings[asset].seller && balance_of(s, s.listings[asset].seller)
        + s.listings[asset].price > u64::MAX {
        Err(ErrorCode::BalanceOverflow)
    } else if !bump_signs_for(s.program, s.authority, bump) {
        Err(ErrorCode::InvalidAuthority)
    } else {
        Ok(())
    }
}

/// `Buy`: the buyer pays the seller, the asset leaves custody for the buyer,
/// and the listing is sold; or nothing changes.
pub open spec fn buy_step(s: MarketState, buyer: u64, asset: u64, bump: u8) -> (MarketState, Result<(), ErrorCode>) {
    let r = buy_outcome(s, buyer, asset, bump);
    let l = s.listings[asset];
    if r is Ok {
        (MarketState {
            listings: s.listings.insert(asset, Listing { status: ListingStatus::Sold, ..l }),
            holders: s.holders.insert(asset, buyer),
            custody: s.custody.remove(asset),
            balances: pay(s, buyer, l.seller, l.price),
            ..s
        }, r)
    } else {
        (s, r)
    }
}

/// What `Delist` answers.
pub open spec fn delist_outcome(s: MarketState, caller: u64, asset: u64, bump: u8) -> Result<(), ErrorCode> {
    if !is_active(s, asset) {
        Err(ErrorCode::ListingNotActive)
    } else if s.listings[asset].seller != caller {
        Err(ErrorCode::UnauthorizedSeller)
    } else if !bump_signs_for(s.program, s.authority, bump) {
        Err(ErrorCode::InvalidAuthority)
    } else {
        Ok(())
    }
}

/// `Delist`: the asset goes back to the seller and the listing is cancelled.
pub open spec fn delist_step(s: MarketState, caller: u64, asset: u64, bump: u8) -> (MarketState, Result<(), ErrorCode>) {
    let r = delist_outcome(s, caller, asset, bump);
    let l = s.listings[asset];
    if r is Ok {
        (MarketState {
            listings: s.listings.insert(asset, Listing { status: ListingStatus::Cancelled, ..l }),
            holders: s.holders.insert(asset, l.seller),
            custody: s.custody.remove(asset),
            ..s
        }, r)
    } else {
        (s, r)
    }
}

/// `List` keeps the invariant.
pub proof fn lemma_list_keeps_wf(s: MarketState, seller: u64, asset: u64, price: u64, bump: u8)
    requires
        market_wf(s),
    ensures
        market_wf(list_step(s, seller, asset, price, bump).0),
{
    let t = list_step(s, seller, asset, price, bump).0;
    assert forall|a: u64| #[trigger] t.custody.contains(a) <==> is_active(t, a) by {
        assert(s.custody.contains(a) <==> is_active(s, a));
    }
    assert forall|a: u64| #[trigger] t.custody.contains(a) implies !t.holders.contains_key(a) by {
        assert(s.custody.contains(a) ==> !s.holders.contains_key(a));
    }
    assert forall|a: u64| #[trigger] is_active(t, a) implies t.listings[a].price > 0 by {
        assert(is_active(s, a) ==> s.listings[a].price > 0);
    }
}

/// `UpdatePrice` keeps the invariant.
pub proof fn lemma_update_keeps_wf(s: MarketState, caller: u64, asset: u64, price: u64)
    requires
        market_wf(s),
    ensures
        market_wf(update_step(s, caller, asset, price).0),
{
    let t = update_step(s, caller, asset, price).0;
    assert forall|a: u64| #[trigger] t.custody.contains(a) <==> is_active(t, a) by {
        assert(s.custody.contains(a) <==> is_active(s, a));
    }
    assert forall|a: u64| #[trigger] is_active(t, a) implies t.listings[a].price > 0 by {
        assert(is_active(s, a) ==> s.listings[a].price > 0);
    }
}

/// `Buy` keeps the invariant.
pub proof fn lemma_buy_keeps_wf(s: MarketState, buyer: u64, asset: u64, bump: u8)
    requires
        market_wf(s),
    ensures
        market_wf(buy_step(s, buyer, asset, bump).0),
{
    let t = buy_step(s, buyer, asset, bump).0;
    assert forall|a: u64| #[trigger] t.custody.contains(a) <==> is_active(t, a) by {
        assert(s.custody.contains(a) <==> is_active(s, a));
    }
    assert forall|a: u64| #[trigger] t.custody.contains(a) implies !t.holders.contains_key(a) by {
        assert(s.custody.contains(a) ==> !s.holders.contains_key(a));
    }
    assert forall|a: u64| #[trigger] is_active(t, a) implies t.listings[a].price > 0 by {
        assert(is_active(s, a) ==> s.listings[a].price > 0);
    }
}

/// `Delist` keeps the invariant.
pub proof fn lemma_delist_keeps_wf(s: MarketState, caller: u64, asset: u64, bump: u8)
    requires
        market_wf(s),
    ensures
        market_wf(delist_step(s, caller, asset, bump).0),
{
    let t = delist_step(s, caller, asset, bump).0;
    assert forall|a: u64| #[trigger] t.custody.contains(a) <==> is_active(t, a) by {
        assert(s.custody.contains(a) <==> is_active(s, a));
    }
    assert forall|a: u64| #[trigger] t.custody.contains(a) implies !t.holders.contains_key(a) by {
        assert(s.custody.contains(a) ==> !s.holders.contains_key(a));
    }
    assert forall|a: u64| #[trigger] is_active(t, a) implies t.listings[a].price > 0 by {
        assert(is_active(s, a) ==> s.listings[a].price > 0);
    }
}

/// The marketplace: listing records keyed by asset, the custody that the
/// derived authority controls, and the holdings and balances it moves.
pub struct Marketplace {
    listings: HashMap<u64, Listing>,
    holders: HashMap<u64, u64>,
    custody: HashSet<u64>,
    balances: HashMap<u64, u64>,
    program: [u8; 32],
    authority: [u8; 32],
    authority_bump: u8,
}

impl View for Marketplace {
    type V = MarketState;

    closed spec fn view(&self) -> MarketState {
        MarketState {
            listings: self.listings@,
            holders: self.holders@,
            custody: self.custody@,
            balances: self.balances@,
            program: self.program@,
            authority: self.authority@,
        }
    }
}

impl Marketplace {
    pub closed spec fn wf(&self) -> bool {
        &&& market_wf(self@)
        &&& bump_signs_for(self@.program, self@.authority, self.authority_bump)
    }

    /// The bump that derives the custodian.
    pub closed spec fn bump_spec(&self) -> u8 {
        self.authority_bump
    }

    /// Opens a marketplace for `program` over the given holdings (asset to
    /// holder) and balances, with nothing listed. Fails with
    /// `InvalidAuthority` where no bump derives a custodian for `program`.
    pub fn new(program: [u8; 32], holders: HashMap<u64, u64>, balances: HashMap<u64, u64>) -> (r: Result<Marketplace, ErrorCode>)
        ensures
            match r {
                Ok(m) => {
                    &&& m.wf()
                    &&& m@.listings.is_empty()
                    &&& m@.custody.is_empty()
                    &&& m@.holders == holders@
                    &&& m@.balances == balances@
                    &&& m@.program == program@
                    &&& 1 <= m.bump_spec()
                    &&& forall|c: u8| m.bump_spec() < c ==> (#[trigger] crate::authority::authority_for_bump(program@, c)) is None
                },
                Err(e) => {
                    &&& e == ErrorCode::InvalidAuthority
                    &&& forall|c: u8| 1 <= c ==> (#[trigger] crate::authority::authority_for_bump(program@, c)) is None
                },
            },
    {
        match derive_authority(&program) {
            Some((authority, bump)) => {
                let m = Marketplace {
                    listings: HashMap::new(),
                    holders,
                    custody: HashSet::new(),
                    balances,
                    program,
                    authority,
                    authority_bump: bump,
                };
                assert(m@.listings =~= Map::empty());
                Ok(m)
            },
            None => Err(ErrorCode::InvalidAuthority),
        }
    }

    /// The custodian's address.
    pub fn authority(&self) -> (r: [u8; 32])
        ensures
            r@ == self@.authority,
    {
        self.authority
    }

    /// The bump that derives the custodian from the program's identity.
    pub fn authority_bump(&self) -> (r: u8)
        requires
            self.wf(),
        ensures
            r == self.bump_spec(),
            bump_signs_for(self@.program, self@.authority, r),
    {
        self.authority_bump
    }

    /// The listing record of `asset`, if one was ever made.
    pub fn listing(&self, asset: u64) -> (r: Option<Listing>)
        ensures
            r == (if self@.listings.contains_key(asset) { Some(self@.listings[asset]) } else { None::<Listing> }),
    {
        match self.listings.get(&asset) {
            Some(l) => Some(*l),
            None => None,
        }
    }

    /// The party holding `asset` outside custody, if any.
    pub fn holder_of(&self, asset: u64) -> (r: Option<u64>)
        ensures
            r == (if self@.holders.contains_key(asset) { Some(self@.holders[asset]) } else { None::<u64> }),
    {
        match self.holders.get(&asset) {
            Some(h) => Some(*h),
            None => None,
        }
    }

    /// Units of `asset` in custody: 0 or 1.
    pub fn custody_balance(&self, asset: u64) -> (r: u8)
        ensures
            r as nat == custody_balance(self@, asset),
    {
        if self.custody.contains(&asset) {
            1
        } else {
            0
        }
    }

    /// The native balance of `party`.
    pub fn balance(&self, party: u64) -> (r: u64)
        ensures
            r as nat == balance_of(self@, party),
    {
        match self.balances.get(&party) {
            Some(b) => *b,
            None => 0,
        }
    }

    /// Moves the asset held by `from` into custody.
    fn deposit_into(&mut self, from: u64, asset: u64) -> (r: Result<(), ErrorCode>)
        requires
            old(self)@.holders.contains_key(asset) ==> !old(self)@.custody.contains(asset),
        ensures
            r == (if !old(self)@.holders.contains_key(asset) {
                Err(ErrorCode::InsufficientBalance)
            } else if old(self)@.holders[asset] != from {
                Err(ErrorCode::OwnershipMismatch)
            } else {
                Ok(())
            }),
            r is Ok ==> final(self)@ == (MarketState {
                holders: old(self)@.holders.remove(asset),
                custody: old(self)@.custody.insert(asset),
                ..old(self)@
            }),
            r is Err ==> final(self)@ == old(self)@,
            final(self).authority_bump == old(self).authority_bump,
    {
        match self.holders.get(&asset) {
            None => Err(ErrorCode::InsufficientBalance),
            Some(h) => {
                if *h != from {
                    Err(ErrorCode::OwnershipMismatch)
                } else {
                    self.holders.remove(&asset);
                    self.custody.insert(asset);
                    Ok(())
                }
            },
        }
    }

    /// Moves the asset out of custody to `to`, signed by the custodian
    /// re-derived from `bump`.
    fn release_from(&mut self, to: u64, asset: u64, bump: u8) -> (r: Result<(), ErrorCode>)
        ensures
            r == (if !bump_signs_for(old(self)@.program, old(self)@.authority, bump) {
                Err(ErrorCode::InvalidAuthority)
            } else if !old(self)@.custody.contains(asset) {
                Err(ErrorCode::EmptyCustody)
            } else {
                Ok(())
            }),
            r is Ok ==> final(self)@ == (MarketState {
                holders: old(self)@.holders.insert(asset, to),
                custody: old(self)@.custody.remove(asset),
                ..old(self)@
            }),
            r is Err ==> final(self)@ == old(self)@,
            final(self).authority_bump == old(self).authority_bump,
    {
        if !check_authority(&self.program, &self.authority, bump) {
            return Err(ErrorCode::InvalidAuthority);
        }
        if !self.custody.contains(&asset) {
            return Err(ErrorCode::EmptyCustody);
        }
        self.custody.remove(&asset);
        self.holders.insert(asset, to);
        Ok(())
    }

    /// Lists the asset for sale at `price`: it moves from the seller into
    /// custody under a new active listing.
    pub fn list_nft(&mut self, ctx: ListNFT, price: u64, bump: u8) -> (r: Result<(), ErrorCode>)
        requires
            old(self).wf(),
        ensures
            final(self).wf(),
            final(self).bump_spec() == old(self).bump_spec(),
            (final(self)@, r) == list_step(old(self)@, ctx.seller, ctx.mint, price, bump),
    {
        if price == 0 {
            return Err(ErrorCode::InvalidPrice);
        }
        match self.listings.get(&ctx.mint) {
            Some(l) => {
                if l.is_active() {
                    return Err(ErrorCode::DuplicateListing);
                }
            },
            None => {},
        }
        let ghost s0 = self@;
        match self.deposit_into(ctx.seller, ctx.mint) {
            Ok(()) => {},
            Err(e) => {
                return Err(e);
            },
        }
        self.listings.insert(
            ctx.mint,
            Listing { seller: ctx.seller, mint: ctx.mint, price, status: ListingStatus::Active, bump },
        );
        proof {
            lemma_list_keeps_wf(s0, ctx.seller, ctx.mint, price, bump);
        }
        Ok(())
    }
    /// Changes the price of an active listing; only its seller may.
    pub fn update_price(&mut self, ctx: UpdatePrice, new_price: u64) -> (r: Result<(), ErrorCode>)
        requires
            old(self).wf(),
        ensures
            final(self).wf(),
            final(self).bump_spec() == old(self).bump_spec(),
            (final(self)@, r) == update_step(old(self)@, ctx.seller, ctx.mint, new_price),
    {
        let l = match self.listings.get(&ctx.mint) {
            Some(l) => *l,
            None => {
                return Err(ErrorCode::ListingNotActive);
            },
        };
        if !l.is_active() {
            return Err(ErrorCode::ListingNotActive);
        }
        if l.seller != ctx.seller {
            return Err(ErrorCode::UnauthorizedSeller);
        }
        if new_price == 0 {
            return Err(ErrorCode::InvalidPrice);
        }
        let ghost s0 = self@;
        self.listings.insert(ctx.mint, Listing { price: new_price, ..l });
        proof {
            lemma_update_keeps_wf(s0, ctx.seller, ctx.mint, new_price);
        }
        Ok(())
    }

    /// Moves `amount` from `from` to `to`.
    fn pay(&mut self, from: u64, to: u64, amount: u64)
        requires
            balance_of(old(self)@, from) >= amount,
            from != to ==> balance_of(old(self)@, to) + amount <= u64::MAX,
        ensures
            final(self)@ == (MarketState {
                balances: pay(old(self)@, from, to, amount),
                ..old(self)@
            }),
            final(self).authority_bump == old(self).authority_bump,
    {
        if from != to {
            let from_balance = self.balance(from);
            let to_balance = self.balance(to);
            self.balances.insert(from, from_balance - amount);
            self.balances.insert(to, to_balance + amount);
        }
    }

    /// Buys the listed asset at its price: the buyer pays the seller, the
    /// asset leaves custody for the buyer, and the listing is sold. Either all
    /// of this happens or nothing does.
    pub fn buy_nft(&mut self, ctx: BuyNFT, bump: u8) -> (r: Result<(), ErrorCode>)
        requires
            old(self).wf(),
        ensures
            final(self).wf(),
            final(self).bump_spec() == old(self).bump_spec(),
            (final(self)@, r) == buy_step(old(self)@, ctx.buyer, ctx.mint, bump),
    {
        let l = match self.listings.get(&ctx.mint) {
            Some(l) => *l,
            None => {
                return Err(ErrorCode::ListingNotActive);
            },
        };
        if !l.is_active() {
            return Err(ErrorCode::ListingNotActive);
        }
        // The payment leg is checked first. The release below checks the
        // custodian's signature and moves nothing when it refuses, and once it
        // has gone through the checked payment cannot fail.
        if self.balance(ctx.buyer) < l.price {
            return Err(ErrorCode::InsufficientFunds);
        }
        if ctx.buyer != l.seller && self.balance(l.seller) > u64::MAX - l.price {
            return Err(ErrorCode::BalanceOverflow);
        }
        let ghost s0 = self@;
        match self.release_from(ctx.buyer, ctx.mint, bump) {
            Ok(()) => {},
            Err(e) => {
                return Err(e);
            },
        }
        self.pay(ctx.buyer, l.seller, l.price);
        self.listings.insert(ctx.mint, Listing { status: ListingStatus::Sold, ..l });
        proof {
            lemma_buy_keeps_wf(s0, ctx.buyer, ctx.mint, bump);
        }
        Ok(())
    }

    /// Cancels an active listing; only its seller may. The asset goes back
    /// to the seller.
    pub fn delist_nft(&mut self, ctx: DelistNFT, bump: u8) -> (r: Result<(), ErrorCode>)
        requires
            old(self).wf(),
        ensures
            final(self).wf(),
            final(self).bump_spec() == old(self).bump_spec(),
            (final(self)@, r) == delist_step(old(self)@, ctx.seller, ctx.mint, bump),
    {
        let l = match self.listings.get(&ctx.mint) {
            Some(l) => *l,
            None => {
                return Err(ErrorCode::ListingNotActive);
            },
        };
        if !l.is_active() {
            return Err(ErrorCode::ListingNotActive);
        }
        if l.seller != ctx.seller {
            return Err(ErrorCode::UnauthorizedSeller);
        }
        let ghost s0 = self@;
        match self.release_from(l.seller, ctx.mint, bump) {
            Ok(()) => {},
            Err(e) => {
                return Err(e);
            },
        }
        self.listings.insert(ctx.mint, Listing { status: ListingStatus::Cancelled, ..l });
        proof {
            lemma_delist_keeps_wf(s0, ctx.seller, ctx.mint, bump);
        }
        Ok(())
    }
} // impl Marketplace

} // verus!
