//! Placing a bid on a listing.

use vstd::prelude::*;
use crate::accounts::{PlaceBid, PlaceBidView};
use crate::error::ErrorCode;
use crate::events::{BidPlaced, BidPlacedView};
use crate::ledger::{Ledger, LedgerView};
use crate::pubkey::Pubkey;
use crate::state::{Bid, BidView, DataListing, DataListingView};

verus! {

/// Why a listing does not take a bid of an amount, if it does not: it is
/// not active; or the amount is below its price.
pub open spec fn bid_refusal(listing: DataListingView, bid_amount: u64) -> Option<ErrorCode> {
    if !listing.is_active {
        Some(ErrorCode::ListingInactive)
    } else if bid_amount < listing.price {
        Some(ErrorCode::BidTooLow)
    } else {
        None
    }
}

/// A bid as it is placed: active.
pub open spec fn offered_bid(listing_key: Seq<u8>, bidder: Seq<u8>, bid_amount: u64, now: i64) -> BidView {
    BidView { listing: listing_key, bidder, amount: bid_amount, timestamp: now, is_active: true }
}

/// A listing once one more bid was placed on it.
pub open spec fn bid_upon(listing: DataListingView) -> DataListingView {
    DataListingView { bid_count: (listing.bid_count + 1) as u64, ..listing }
}

/// The notification for a bid.
pub open spec fn bid_event(bid: BidView) -> BidPlacedView {
    BidPlacedView {
        listing: bid.listing,
        bidder: bid.bidder,
        amount: bid.amount,
        timestamp: bid.timestamp,
    }
}

impl DataListing {
    /// Accepts an amount if the listing takes a bid of it.
    pub fn accepts(&self, bid_amount: u64) -> (result: Result<(), ErrorCode>)
        ensures
            match result {
                Ok(_) => bid_refusal(self@, bid_amount) is None,
                Err(code) => bid_refusal(self@, bid_amount) == Some(code),
            },
    {
        if !self.is_active {
            Err(ErrorCode::ListingInactive)
        } else if bid_amount < self.price {
            Err(ErrorCode::BidTooLow)
        } else {
            Ok(())
        }
    }

    /// Counts one bid more.
    pub fn count_bid(&mut self)
        requires
            old(self).bid_count < u64::MAX,
        ensures
            final(self)@ == bid_upon(old(self)@),
            final(self).bid_count == old(self).bid_count + 1,
    {
        self.bid_count = self.bid_count + 1;
    }
}

impl Bid {
    /// The bid of the bidder on the listing at `listing_key`, if the listing
    /// takes it.
    pub fn offer(
        listing: &DataListing,
        listing_key: Pubkey,
        bidder: Pubkey,
        bid_amount: u64,
        now: i64,
    ) -> (result: Result<Bid, ErrorCode>)
        ensures
            match result {
                Ok(bid) => {
                    &&& bid_refusal(listing@, bid_amount) is None
                    &&& bid@ == offered_bid(listing_key@, bidder@, bid_amount, now)
                },
                Err(code) => bid_refusal(listing@, bid_amount) == Some(code),
            },
    {
        match listing.accepts(bid_amount) {
            Err(code) => Err(code),
            Ok(_) => Ok(
                Bid { listing: listing_key, bidder, amount: bid_amount, timestamp: now, is_active: true },
            ),
        }
    }

    /// Places the bid of the bidder on the listing at `listing_key`, which
    /// then counts one bid more. A refusal leaves the listing as it was. The
    /// count of the listing must not be at the end of its range.
    pub fn place(
        listing: &mut DataListing,
        listing_key: Pubkey,
        bidder: Pubkey,
        bid_amount: u64,
        now: i64,
    ) -> (result: Result<Bid, ErrorCode>)
        requires
            old(listing).bid_count < u64::MAX,
        ensures
            match result {
                Ok(bid) => {
                    &&& bid_refusal(old(listing)@, bid_amount) is None
                    &&& bid@ == offered_bid(listing_key@, bidder@, bid_amount, now)
                    &&& final(listing)@ == bid_upon(old(listing)@)
                    &&& final(listing).bid_count == old(listing).bid_count + 1
                },
                Err(code) => {
                    &&& bid_refusal(old(listing)@, bid_amount) == Some(code)
                    &&& final(listing)@ == old(listing)@
                },
            },
    {
        match Bid::offer(listing, listing_key, bidder, bid_amount, now) {
            Err(code) => Err(code),
            Ok(bid) => {
                listing.count_bid();
                Ok(bid)
            },
        }
    }
}

impl BidPlaced {
    /// The notification for a bid.
    pub fn of(bid: &Bid) -> (event: BidPlaced)
        ensures
            event@ == bid_event(bid@),
    {
        BidPlaced {
            listing: bid.listing,
            bidder: bid.bidder,
            amount: bid.amount,
            timestamp: bid.timestamp,
        }
    }
}

/// Why a request to place a bid is refused, if it is: no listing stands at
/// the address, or it is not active; or the amount is below the price of
/// the listing; or the bidder has bid on the listing before.
pub open spec fn place_bid_refusal(pre: LedgerView, ctx: PlaceBidView, bid_amount: u64) -> Option<
    ErrorCode,
> {
    if !pre.listings.dom().contains(ctx.listing) {
        Some(ErrorCode::ListingInactive)
    } else if bid_refusal(pre.listings[ctx.listing], bid_amount) is Some {
        bid_refusal(pre.listings[ctx.listing], bid_amount)
    } else if pre.bids.dom().contains(ctx.bid) {
        Some(ErrorCode::HNFTAlreadyExists)
    } else {
        None
    }
}

/// The bid that a request places.
pub open spec fn placed_bid(ctx: PlaceBidView, bid_amount: u64, now: i64) -> BidView {
    offered_bid(ctx.listing, ctx.bidder, bid_amount, now)
}

/// The ledger after a bid was placed: the bid is filed, and the listing
/// counts one bid more.
pub open spec fn with_bid(pre: LedgerView, ctx: PlaceBidView, bid_amount: u64, now: i64) -> LedgerView {
    LedgerView {
        listings: pre.listings.insert(ctx.listing, bid_upon(pre.listings[ctx.listing])),
        bids: pre.bids.insert(ctx.bid, placed_bid(ctx, bid_amount, now)),
        ..pre
    }
}

/// The notification of a placed bid.
pub open spec fn place_bid_event(ctx: PlaceBidView, bid_amount: u64, now: i64) -> BidPlacedView {
    BidPlacedView { listing: ctx.listing, bidder: ctx.bidder, amount: bid_amount, timestamp: now }
}

/// In a consistent ledger no listing counts more bids than the ledger holds.
pub proof fn lemma_bid_count_bounded(pre: LedgerView, listing: Seq<u8>)
    requires
        pre.consistent(),
        pre.listings.dom().contains(listing),
    ensures
        pre.bids_on(listing).finite(),
        pre.listings[listing].bid_count == pre.bids_on(listing).len(),
        pre.listings[listing].bid_count <= pre.bids.dom().len(),
{
    vstd::set_lib::lemma_len_subset(pre.bids_on(listing), pre.bids.dom());
}

/// Placing a bid keeps a consistent ledger consistent, as long as the
/// machine can count one bid more.
pub proof fn lemma_with_bid_consistent(pre: LedgerView, ctx: PlaceBidView, bid_amount: u64, now: i64)
    requires
        pre.consistent(),
        ctx.wf(),
        place_bid_refusal(pre, ctx, bid_amount) is None,
        pre.bids.dom().len() < usize::MAX,
    ensures
        with_bid(pre, ctx, bid_amount, now).consistent(),
        with_bid(pre, ctx, bid_amount, now).listings[ctx.listing].bid_count
            == pre.listings[ctx.listing].bid_count + 1,
{
    let post = with_bid(pre, ctx, bid_amount, now);
    lemma_bid_count_bounded(pre, ctx.listing);
    assert(post.bids_on(ctx.listing) =~= pre.bids_on(ctx.listing).insert(ctx.bid));
    assert forall|l: Seq<u8>| l != ctx.listing implies post.bids_on(l) == pre.bids_on(l) by {
        assert(post.bids_on(l) =~= pre.bids_on(l));
    }
}

/// Places a bid of `bid_amount` on a listing. The bid is accepted when the
/// listing is active, the amount is at least its price, and the bidder has
/// not bid on it before; the listing then counts one bid more. Only the
/// intent is recorded: no funds move.
pub fn place_bid(ledger: &mut Ledger, ctx: &PlaceBid, bid_amount: u64, now: i64) -> (result: Result<
    BidPlaced,
    ErrorCode,
>)
    ensures
        final(ledger)@.consistent(),
        match result {
            Ok(event) => {
                &&& place_bid_refusal(old(ledger)@, ctx@, bid_amount) is None
                &&& final(ledger)@ == with_bid(old(ledger)@, ctx@, bid_amount, now)
                &&& final(ledger)@.listings[ctx@.listing].bid_count
                    == old(ledger)@.listings[ctx@.listing].bid_count + 1
                &&& event@ == place_bid_event(ctx@, bid_amount, now)
            },
            Err(code) => {
                &&& place_bid_refusal(old(ledger)@, ctx@, bid_amount) == Some(code)
                &&& final(ledger)@ == old(ledger)@
            },
        },
{
    let bidder = ctx.bidder();
    let listing_key = ctx.listing();
    let bid_key = ctx.bid();
    let bid = match ledger.listing(&listing_key) {
        None => {
            return Err(ErrorCode::ListingInactive);
        },
        Some(listing) => match Bid::offer(listing, listing_key, bidder, bid_amount, now) {
            Err(code) => {
                return Err(code);
            },
            Ok(bid) => bid,
        },
    };
    if ledger.bid(&bid_key).is_some() {
        return Err(ErrorCode::HNFTAlreadyExists);
    }
    let event = BidPlaced::of(&bid);
    let mut store = ledger.open();
    let ghost pre = store@;
    store.bids.insert(bid_key, bid);
    let filed = store.bids.len();
    proof {
        assert(pre.bids.dom().len() + 1 == filed);
        lemma_bid_count_bounded(pre, ctx@.listing);
        lemma_with_bid_consistent(pre, ctx@, bid_amount, now);
    }
    let mut listing = store.listings.take(&listing_key).unwrap();
    listing.count_bid();
    store.listings.insert(listing_key, listing);
    proof {
        let post = with_bid(pre, ctx@, bid_amount, now);
        assert(store@.listings =~= post.listings);
        assert(store@.bids =~= post.bids);
        assert(store@ == post);
    }
    ledger.close(store);
    Ok(event)
}

} // verus!
