//! Opening the listing of a credential.

use vstd::prelude::*;
use crate::accounts::{ListData, ListDataView};
use crate::error::ErrorCode;
use crate::events::{DataListed, DataListedView};
use crate::ledger::{Ledger, LedgerView};
use crate::pubkey::Pubkey;
use crate::state::{DataListing, DataListingView, HNFT, HNFTView};

verus! {

/// Why a credential is not listed for a seller, if it is not: the seller
/// does not own it; or it is listed already.
pub open spec fn open_refusal(hnft: HNFTView, seller: Seq<u8>) -> Option<ErrorCode> {
    if hnft.owner != seller {
        Some(ErrorCode::Unauthorized)
    } else if hnft.is_listed {
        Some(ErrorCode::AlreadyListed)
    } else {
        None
    }
}

/// A listing as it is opened: active, and without bids.
pub open spec fn opened_listing(
    hnft_key: Seq<u8>,
    seller: Seq<u8>,
    price: u64,
    currency: u8,
    description: Seq<char>,
    now: i64,
) -> DataListingView {
    DataListingView {
        hnft: hnft_key,
        seller,
        price,
        currency,
        description,
        created_at: now,
        is_active: true,
        bid_count: 0,
    }
}

/// A credential once it is listed at a price.
pub open spec fn listed_credential(hnft: HNFTView, price: u64) -> HNFTView {
    HNFTView { is_listed: true, listing_price: price, ..hnft }
}

/// The notification for the listing at an address.
pub open spec fn listing_event(listing_key: Seq<u8>, listing: DataListingView, now: i64) -> DataListedView {
    DataListedView {
        listing: listing_key,
        hnft: listing.hnft,
        price: listing.price,
        currency: listing.currency,
        timestamp: now,
    }
}

impl HNFT {
    /// Accepts the seller if it may list the credential.
    pub fn listable_by(&self, seller: &Pubkey) -> (result: Result<(), ErrorCode>)
        ensures
            match result {
                Ok(_) => open_refusal(self@, seller@) is None,
                Err(code) => open_refusal(self@, seller@) == Some(code),
            },
    {
        if !self.owner.same(seller) {
            Err(ErrorCode::Unauthorized)
        } else if self.is_listed {
            Err(ErrorCode::AlreadyListed)
        } else {
            Ok(())
        }
    }
}

impl DataListing {
    /// Opens the listing of the credential at `hnft_key` for the seller, and
    /// marks the credential as listed at the price. A refusal leaves the
    /// credential as it was.
    pub fn open(
        hnft: &mut HNFT,
        hnft_key: Pubkey,
        seller: Pubkey,
        price: u64,
        currency: u8,
        description: String,
        now: i64,
    ) -> (result: Result<DataListing, ErrorCode>)
        ensures
            match result {
                Ok(listing) => {
                    &&& open_refusal(old(hnft)@, seller@) is None
                    &&& final(hnft)@ == listed_credential(old(hnft)@, price)
                    &&& listing@ == opened_listing(
                        hnft_key@,
                        seller@,
                        price,
                        currency,
                        description@,
                        now,
                    )
                },
                Err(code) => {
                    &&& open_refusal(old(hnft)@, seller@) == Some(code)
                    &&& final(hnft)@ == old(hnft)@
                },
            },
    {
        match hnft.listable_by(&seller) {
            Err(code) => Err(code),
            Ok(_) => {
                hnft.is_listed = true;
                hnft.listing_price = price;
                Ok(
                    DataListing {
                        hnft: hnft_key,
                        seller,
                        price,
                        currency,
                        description,
                        created_at: now,
                        is_active: true,
                        bid_count: 0,
                    },
                )
            },
        }
    }
}

impl DataListed {
    /// The notification for the listing at an address.
    pub fn of(listing_key: Pubkey, listing: &DataListing, now: i64) -> (event: DataListed)
        ensures
            event@ == listing_event(listing_key@, listing@, now),
    {
        DataListed {
            listing: listing_key,
            hnft: listing.hnft,
            price: listing.price,
            currency: listing.currency,
            timestamp: now,
        }
    }
}

/// Why a request to open a listing is refused, if it is: no credential
/// stands at the address, or the caller does not own it; or the credential
/// is listed already; or a listing stands already at the address derived
/// from the credential.
pub open spec fn list_data_refusal(pre: LedgerView, ctx: ListDataView) -> Option<ErrorCode> {
    if !pre.hnfts.dom().contains(ctx.hnft) {
        Some(ErrorCode::Unauthorized)
    } else if open_refusal(pre.hnfts[ctx.hnft], ctx.user) is Some {
        open_refusal(pre.hnfts[ctx.hnft], ctx.user)
    } else if pre.listings.dom().contains(ctx.listing) {
        Some(ErrorCode::HNFTAlreadyExists)
    } else {
        None
    }
}

/// The ledger after a listing was opened: the listing is filed, and the
/// credential shows that it is listed and at what price.
pub open spec fn listed(
    pre: LedgerView,
    ctx: ListDataView,
    price: u64,
    currency: u8,
    description: Seq<char>,
    now: i64,
) -> LedgerView {
    LedgerView {
        hnfts: pre.hnfts.insert(ctx.hnft, listed_credential(pre.hnfts[ctx.hnft], price)),
        listings: pre.listings.insert(
            ctx.listing,
            opened_listing(ctx.hnft, ctx.user, price, currency, description, now),
        ),
        ..pre
    }
}

/// The notification of an opened listing.
pub open spec fn list_data_event(ctx: ListDataView, price: u64, currency: u8, now: i64) -> DataListedView {
    DataListedView { listing: ctx.listing, hnft: ctx.hnft, price, currency, timestamp: now }
}

/// Opening a listing keeps a consistent ledger consistent.
pub proof fn lemma_listed_consistent(
    pre: LedgerView,
    ctx: ListDataView,
    price: u64,
    currency: u8,
    description: Seq<char>,
    now: i64,
)
    requires
        pre.consistent(),
        ctx.wf(),
        list_data_refusal(pre, ctx) is None,
    ensures
        listed(pre, ctx, price, currency, description, now).consistent(),
{
    let post = listed(pre, ctx, price, currency, description, now);
    assert forall|l: Seq<u8>| post.bids_on(l) == pre.bids_on(l) by {
        assert(post.bids_on(l) =~= pre.bids_on(l));
    }
    assert(pre.bids_on(ctx.listing) =~= Set::<Seq<u8>>::empty());
}

/// Opens the listing of a credential at a price, in a currency (0 for the
/// native asset, 1 for the stable asset), with a description. Only the owner
/// of the credential may do so, and only while the credential is not listed.
/// No funds move.
pub fn list_data(
    ledger: &mut Ledger,
    ctx: &ListData,
    price: u64,
    currency: u8,
    description: String,
    now: i64,
) -> (result: Result<DataListed, ErrorCode>)
    ensures
        final(ledger)@.consistent(),
        match result {
            Ok(event) => {
                &&& list_data_refusal(old(ledger)@, ctx@) is None
                &&& final(ledger)@ == listed(old(ledger)@, ctx@, price, currency, description@, now)
                &&& event@ == list_data_event(ctx@, price, currency, now)
            },
            Err(code) => {
                &&& list_data_refusal(old(ledger)@, ctx@) == Some(code)
                &&& final(ledger)@ == old(ledger)@
            },
        },
{
    let user = ctx.user();
    let hnft_key = ctx.hnft();
    let listing_key = ctx.listing();
    match ledger.hnft(&hnft_key) {
        None => {
            return Err(ErrorCode::Unauthorized);
        },
        Some(hnft) => {
            if let Err(code) = hnft.listable_by(&user) {
                return Err(code);
            }
        },
    }
    if ledger.listing(&listing_key).is_some() {
        return Err(ErrorCode::HNFTAlreadyExists);
    }
    let mut store = ledger.open();
    let ghost pre = store@;
    let mut hnft = store.hnfts.take(&hnft_key).unwrap();
    let listing = DataListing::open(&mut hnft, hnft_key, user, price, currency, description, now)
        .unwrap();
    let event = DataListed::of(listing_key, &listing, now);
    store.hnfts.insert(hnft_key, hnft);
    store.listings.insert(listing_key, listing);
    proof {
        let post = listed(pre, ctx@, price, currency, description@, now);
        assert(store@.hnfts =~= post.hnfts);
        assert(store@.listings =~= post.listings);
        assert(store@ == post);
        lemma_listed_consistent(pre, ctx@, price, currency, description@, now);
    }
    ledger.close(store);
    Ok(event)
}

} // verus!
