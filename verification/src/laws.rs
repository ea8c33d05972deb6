//! What holds of every ledger and of every sequence of requests.

use vstd::prelude::*;
use crate::address::listing_slot;
use crate::accounts::{AppendHistoryView, ListDataView, MintDatasetNftView, MintHNFTView,
    PlaceBidView};
use crate::bid::{lemma_bid_count_bounded, lemma_with_bid_consistent, place_bid_refusal, with_bid};
use crate::compound::{lemma_with_compound_consistent, with_compound};
use crate::credential::{append_history_refusal, appended_credential,
    lemma_credential_filed_consistent, minted_credential, mint_hnft_refusal, with_credential,
    with_history};
use crate::dataset::{derived_dataset, lemma_with_dataset_consistent, mint_dataset_nft_refusal,
    with_dataset};
use crate::error::ErrorCode;
use crate::ledger::LedgerView;
use crate::listing::{lemma_listed_consistent, list_data_refusal, listed};
use crate::state::{DataListingView, HNFTView};

verus! {

/// A request that can change the ledger, with all it was given.
#[allow(inconsistent_fields)]
pub ghost enum Request {
    MintHNFT {
        ctx: MintHNFTView,
        encrypted_data: Seq<char>,
        zk_proof: Seq<char>,
        category: u8,
        now: i64,
    },
    ListData { ctx: ListDataView, price: u64, currency: u8, description: Seq<char>, now: i64 },
    PlaceBid { ctx: PlaceBidView, bid_amount: u64, now: i64 },
    AutoCompound { user: Seq<u8>, amount: u64, yield_pool: Seq<u8>, now: i64 },
    AppendHistory { ctx: AppendHistoryView, uri: Seq<char>, trait_id: Seq<char>, now: i64 },
    MintDatasetNft {
        ctx: MintDatasetNftView,
        dataset_uri: Seq<char>,
        category: Seq<char>,
        now: i64,
    },
}

impl Request {
    /// The addresses that the request names are the derived ones.
    pub open spec fn wf(self) -> bool {
        match self {
            Request::MintHNFT { ctx, .. } => ctx.wf(),
            Request::ListData { ctx, .. } => ctx.wf(),
            Request::PlaceBid { ctx, .. } => ctx.wf(),
            Request::AutoCompound { .. } => true,
            Request::AppendHistory { ctx, .. } => ctx.wf(),
            Request::MintDatasetNft { ctx, .. } => ctx.wf(),
        }
    }

    /// Why the request is refused on a ledger, if it is.
    pub open spec fn refusal(self, pre: LedgerView) -> Option<ErrorCode> {
        match self {
            Request::MintHNFT { ctx, encrypted_data, zk_proof, .. } => mint_hnft_refusal(
                pre,
                ctx,
                encrypted_data,
                zk_proof,
            ),
            Request::ListData { ctx, .. } => list_data_refusal(pre, ctx),
            Request::PlaceBid { ctx, bid_amount, .. } => place_bid_refusal(pre, ctx, bid_amount),
            Request::AutoCompound { .. } => None,
            Request::AppendHistory { ctx, .. } => append_history_refusal(pre, ctx),
            Request::MintDatasetNft { ctx, .. } => mint_dataset_nft_refusal(pre, ctx),
        }
    }

    /// The ledger after the request: changed as the request asks, or as it
    /// was where the request is refused.
    pub open spec fn apply(self, pre: LedgerView) -> LedgerView {
        if self.refusal(pre) is Some {
            pre
        } else {
            match self {
                Request::MintHNFT { ctx, encrypted_data, zk_proof, category, now } => with_credential(
                    pre,
                    ctx,
                    encrypted_data,
                    zk_proof,
                    category,
                    now,
                ),
                Request::ListData { ctx, price, currency, description, now } => listed(
                    pre,
                    ctx,
                    price,
                    currency,
                    description,
                    now,
                ),
                Request::PlaceBid { ctx, bid_amount, now } => with_bid(pre, ctx, bid_amount, now),
                Request::AutoCompound { user, amount, yield_pool, now } => with_compound(
                    pre,
                    user,
                    amount,
                    yield_pool,
                    now,
                ),
                Request::AppendHistory { ctx, uri, trait_id, .. } => with_history(
                    pre,
                    ctx,
                    uri,
                    trait_id,
                ),
                Request::MintDatasetNft { ctx, dataset_uri, category, now } => with_dataset(
                    pre,
                    ctx,
                    dataset_uri,
                    category,
                    now,
                ),
            }
        }
    }

    /// Whether the request is an accepted bid on the listing.
    pub open spec fn is_accepted_bid_on(self, pre: LedgerView, listing: Seq<u8>) -> bool {
        self matches Request::PlaceBid { ctx, bid_amount, .. } && ctx.listing == listing
            && place_bid_refusal(pre, ctx, bid_amount) is None
    }
}

/// The ledger after a sequence of requests, applied in order.
pub open spec fn run(pre: LedgerView, requests: Seq<Request>) -> LedgerView
    decreases requests.len(),
{
    if requests.len() == 0 {
        pre
    } else {
        requests.last().apply(run(pre, requests.drop_last()))
    }
}

/// The number of bids on a listing that a sequence of requests placed with
/// success.
pub open spec fn accepted_bids(pre: LedgerView, requests: Seq<Request>, listing: Seq<u8>) -> nat
    decreases requests.len(),
{
    if requests.len() == 0 {
        0
    } else {
        let earlier = accepted_bids(pre, requests.drop_last(), listing);
        if requests.last().is_accepted_bid_on(run(pre, requests.drop_last()), listing) {
            earlier + 1
        } else {
            earlier
        }
    }
}

/// The ledger before any request is consistent.
pub proof fn law_empty_ledger_is_consistent()
    ensures
        LedgerView::empty().consistent(),
{
}

/// Every request on addresses that were derived keeps a consistent ledger
/// consistent, as long as the machine can count the bids.
pub proof fn law_request_keeps_consistency(pre: LedgerView, request: Request)
    requires
        pre.consistent(),
        request.wf(),
        request is PlaceBid ==> pre.bids.dom().len() < usize::MAX,
    ensures
        request.apply(pre).consistent(),
{
    if request.refusal(pre) is None {
        match request {
            Request::MintHNFT { ctx, encrypted_data, zk_proof, category, now } => {
                lemma_credential_filed_consistent(
                    pre,
                    ctx.hnft,
                    minted_credential(ctx, encrypted_data, zk_proof, category, now),
                );
            },
            Request::ListData { ctx, price, currency, description, now } => {
                lemma_listed_consistent(pre, ctx, price, currency, description, now);
            },
            Request::PlaceBid { ctx, bid_amount, now } => {
                lemma_with_bid_consistent(pre, ctx, bid_amount, now);
            },
            Request::AutoCompound { user, amount, yield_pool, now } => {
                lemma_with_compound_consistent(pre, user, amount, yield_pool, now);
            },
            Request::AppendHistory { ctx, uri, trait_id, .. } => {
                lemma_credential_filed_consistent(
                    pre,
                    ctx.hnft,
                    appended_credential(pre.hnfts[ctx.hnft], uri, trait_id),
                );
            },
            Request::MintDatasetNft { ctx, dataset_uri, category, now } => {
                lemma_with_dataset_consistent(pre, ctx, dataset_uri, category, now);
            },
        }
    }
}

/// In a consistent ledger an owner has at most one credential: two
/// credentials of one owner stand at one address.
pub proof fn law_one_credential_per_owner(ledger: LedgerView, first: Seq<u8>, second: Seq<u8>)
    requires
        ledger.consistent(),
        ledger.hnfts.dom().contains(first),
        ledger.hnfts.dom().contains(second),
        ledger.hnfts[first].owner == ledger.hnfts[second].owner,
    ensures
        first == second,
{
}

/// In a consistent ledger a credential that shows itself as listed has an
/// active listing that refers to it, opened by its owner at the price that
/// the credential shows.
pub proof fn law_listed_credential_has_listing(ledger: LedgerView, hnft: Seq<u8>)
    requires
        ledger.consistent(),
        ledger.hnfts.dom().contains(hnft),
        ledger.hnfts[hnft].is_listed,
    ensures
        listing_slot(hnft) is Some,
        ledger.listings.dom().contains(listing_slot(hnft).unwrap()),
        ledger.listings[listing_slot(hnft).unwrap()].hnft == hnft,
        ledger.listings[listing_slot(hnft).unwrap()].is_active,
        ledger.listings[listing_slot(hnft).unwrap()].seller == ledger.hnfts[hnft].owner,
        ledger.listings[listing_slot(hnft).unwrap()].price == ledger.hnfts[hnft].listing_price,
{
}

/// In a consistent ledger a credential has at most one listing, and every
/// listing belongs to a credential of the ledger that shows itself as
/// listed.
pub proof fn law_one_listing_per_credential(ledger: LedgerView, first: Seq<u8>, second: Seq<u8>)
    requires
        ledger.consistent(),
        ledger.listings.dom().contains(first),
        ledger.listings.dom().contains(second),
        ledger.listings[first].hnft == ledger.listings[second].hnft,
    ensures
        first == second,
        ledger.hnfts.dom().contains(ledger.listings[first].hnft),
        ledger.hnfts[ledger.listings[first].hnft].is_listed,
{
}

/// In a consistent ledger a bidder has at most one bid on a listing, and
/// every bid is on a listing of the ledger, at no less than its price.
pub proof fn law_one_bid_per_listing_and_bidder(ledger: LedgerView, first: Seq<u8>, second: Seq<u8>)
    requires
        ledger.consistent(),
        ledger.bids.dom().contains(first),
        ledger.bids.dom().contains(second),
        ledger.bids[first].listing == ledger.bids[second].listing,
        ledger.bids[first].bidder == ledger.bids[second].bidder,
    ensures
        first == second,
        ledger.listings.dom().contains(ledger.bids[first].listing),
        ledger.bids[first].amount >= ledger.listings[ledger.bids[first].listing].price,
{
}

/// In a consistent ledger a credential has at most one dataset, and every
/// dataset is tradeable and belongs to the owner of its credential, which is
/// soulbound all the same.
pub proof fn law_one_dataset_per_credential(ledger: LedgerView, first: Seq<u8>, second: Seq<u8>)
    requires
        ledger.consistent(),
        ledger.datasets.dom().contains(first),
        ledger.datasets.dom().contains(second),
        ledger.datasets[first].hnft == ledger.datasets[second].hnft,
    ensures
        first == second,
        ledger.datasets[first].is_tradeable,
        ledger.hnfts.dom().contains(ledger.datasets[first].hnft),
        ledger.hnfts[ledger.datasets[first].hnft].owner == ledger.datasets[first].owner,
        ledger.hnfts[ledger.datasets[first].hnft].is_soulbound,
{
}

/// No request removes a record or changes a bid or a dataset, and the log of
/// compounding actions only grows.
pub proof fn law_records_stay(pre: LedgerView, request: Request)
    ensures
        pre.hnfts.dom().subset_of(request.apply(pre).hnfts.dom()),
        pre.listings.dom().subset_of(request.apply(pre).listings.dom()),
        pre.bids.submap_of(request.apply(pre).bids),
        pre.datasets.submap_of(request.apply(pre).datasets),
        pre.compounds.is_prefix_of(request.apply(pre).compounds),
{
}

/// A request that is refused changes nothing.
pub proof fn law_refused_request_changes_nothing(pre: LedgerView, request: Request)
    requires
        request.refusal(pre) is Some,
    ensures
        request.apply(pre) == pre,
{
}

/// No request removes a credential, changes its owner, its category or the
/// time it was minted, lifts the soulbound mark, or takes it off the market.
pub proof fn law_credential_stays(pre: LedgerView, request: Request, address: Seq<u8>)
    requires
        pre.hnfts.dom().contains(address),
    ensures
        request.apply(pre).hnfts.dom().contains(address),
        request.apply(pre).hnfts[address].owner == pre.hnfts[address].owner,
        request.apply(pre).hnfts[address].category == pre.hnfts[address].category,
        request.apply(pre).hnfts[address].mint_timestamp == pre.hnfts[address].mint_timestamp,
        request.apply(pre).hnfts[address].is_soulbound == pre.hnfts[address].is_soulbound,
        pre.hnfts[address].is_listed ==> request.apply(pre).hnfts[address].is_listed,
{
}

/// The same, of every sequence of requests.
pub proof fn law_credential_stays_for_good(pre: LedgerView, requests: Seq<Request>, address: Seq<u8>)
    requires
        pre.hnfts.dom().contains(address),
    ensures
        run(pre, requests).hnfts.dom().contains(address),
        run(pre, requests).hnfts[address].owner == pre.hnfts[address].owner,
        run(pre, requests).hnfts[address].category == pre.hnfts[address].category,
        run(pre, requests).hnfts[address].mint_timestamp == pre.hnfts[address].mint_timestamp,
        run(pre, requests).hnfts[address].is_soulbound == pre.hnfts[address].is_soulbound,
        pre.hnfts[address].is_listed ==> run(pre, requests).hnfts[address].is_listed,
    decreases requests.len(),
{
    if requests.len() > 0 {
        law_credential_stays_for_good(pre, requests.drop_last(), address);
        law_credential_stays(run(pre, requests.drop_last()), requests.last(), address);
    }
}

/// Once the credential of a user was minted, every later request to mint
/// one for that user is refused, because it exists already: whatever was
/// requested in between, and whatever data and proof the later request
/// brings.
pub proof fn law_second_mint_is_refused(
    pre: LedgerView,
    first: MintHNFTView,
    encrypted_data: Seq<char>,
    zk_proof: Seq<char>,
    category: u8,
    now: i64,
    between: Seq<Request>,
    second: MintHNFTView,
    later_data: Seq<char>,
    later_proof: Seq<char>,
)
    requires
        first.wf(),
        second.wf(),
        second.user == first.user,
        mint_hnft_refusal(pre, first, encrypted_data, zk_proof) is None,
    ensures
        mint_hnft_refusal(
            run(with_credential(pre, first, encrypted_data, zk_proof, category, now), between),
            second,
            later_data,
            later_proof,
        ) == Some(ErrorCode::HNFTAlreadyExists),
{
    let minted = with_credential(pre, first, encrypted_data, zk_proof, category, now);
    assert(minted.hnfts.dom().contains(first.hnft));
    law_credential_stays_for_good(minted, between, first.hnft);
}

/// A listing is opened only by the owner of the credential: whoever else
/// asks is refused as unauthorized, and so is whoever asks for a credential
/// that does not exist.
pub proof fn law_listing_needs_owner(pre: LedgerView, ctx: ListDataView)
    ensures
        list_data_refusal(pre, ctx) is None ==> pre.hnfts.dom().contains(ctx.hnft)
            && pre.hnfts[ctx.hnft].owner == ctx.user,
        !pre.hnfts.dom().contains(ctx.hnft) || pre.hnfts[ctx.hnft].owner != ctx.user
            ==> list_data_refusal(pre, ctx) == Some(ErrorCode::Unauthorized),
{
}

/// Once a listing was opened for a credential, every later request of the
/// owner to open one for that credential is refused, because the credential
/// is listed already: whatever was requested in between.
pub proof fn law_second_listing_is_refused(
    pre: LedgerView,
    first: ListDataView,
    price: u64,
    currency: u8,
    description: Seq<char>,
    now: i64,
    between: Seq<Request>,
    second: ListDataView,
)
    requires
        second.hnft == first.hnft,
        second.user == first.user,
        list_data_refusal(pre, first) is None,
    ensures
        list_data_refusal(
            run(listed(pre, first, price, currency, description, now), between),
            second,
        ) == Some(ErrorCode::AlreadyListed),
{
    let opened = listed(pre, first, price, currency, description, now);
    assert(opened.hnfts.dom().contains(first.hnft));
    law_credential_stays_for_good(opened, between, first.hnft);
}

/// A bid is accepted only on an active listing and at no less than its
/// price. On a missing or inactive listing it is refused because the listing
/// is inactive; else, below the price, because it is too low. A bid on an
/// active listing at no less than its price is accepted if the bidder has
/// not bid on the listing before.
pub proof fn law_bid_acceptance(pre: LedgerView, ctx: PlaceBidView, bid_amount: u64)
    ensures
        place_bid_refusal(pre, ctx, bid_amount) is None ==> {
            &&& pre.listings.dom().contains(ctx.listing)
            &&& pre.listings[ctx.listing].is_active
            &&& bid_amount >= pre.listings[ctx.listing].price
        },
        !pre.listings.dom().contains(ctx.listing) || !pre.listings[ctx.listing].is_active
            ==> place_bid_refusal(pre, ctx, bid_amount) == Some(ErrorCode::ListingInactive),
        pre.listings.dom().contains(ctx.listing) && pre.listings[ctx.listing].is_active
            && bid_amount < pre.listings[ctx.listing].price ==> place_bid_refusal(
            pre,
            ctx,
            bid_amount,
        ) == Some(ErrorCode::BidTooLow),
        pre.listings.dom().contains(ctx.listing) && pre.listings[ctx.listing].is_active
            && bid_amount >= pre.listings[ctx.listing].price && !pre.bids.dom().contains(ctx.bid)
            ==> place_bid_refusal(pre, ctx, bid_amount) is None,
{
}

/// In a consistent ledger the count of a listing is the number of bids
/// that the ledger holds for it.
pub proof fn law_bid_count_is_number_of_bids(ledger: LedgerView, listing: Seq<u8>)
    requires
        ledger.consistent(),
        ledger.listings.dom().contains(listing),
    ensures
        ledger.bids_on(listing).finite(),
        ledger.listings[listing].bid_count == ledger.bids_on(listing).len(),
{
    lemma_bid_count_bounded(ledger, listing);
}

/// No request removes a listing or changes anything of it but its count,
/// and the count grows by one with an accepted bid on it and with nothing
/// else.
pub proof fn law_listing_counts_accepted_bids(pre: LedgerView, request: Request, listing: Seq<u8>)
    requires
        pre.listings.dom().contains(listing),
        pre.listings[listing].bid_count < u64::MAX,
    ensures
        request.apply(pre).listings.dom().contains(listing),
        request.apply(pre).listings[listing] == (DataListingView {
            bid_count: request.apply(pre).listings[listing].bid_count,
            ..pre.listings[listing]
        }),
        request.apply(pre).listings[listing].bid_count == pre.listings[listing].bid_count + (
        if request.is_accepted_bid_on(pre, listing) {
            1int
        } else {
            0int
        }),
{
}

/// After any sequence of requests, the count of a listing has grown by the
/// number of bids on it that were placed with success, as long as the machine
/// can count them.
pub proof fn law_bid_count_is_number_of_accepted_bids(
    pre: LedgerView,
    requests: Seq<Request>,
    listing: Seq<u8>,
)
    requires
        pre.listings.dom().contains(listing),
        pre.listings[listing].bid_count + accepted_bids(pre, requests, listing) <= u64::MAX,
    ensures
        run(pre, requests).listings.dom().contains(listing),
        run(pre, requests).listings[listing].bid_count == pre.listings[listing].bid_count
            + accepted_bids(pre, requests, listing),
    decreases requests.len(),
{
    if requests.len() > 0 {
        let earlier = requests.drop_last();
        law_bid_count_is_number_of_accepted_bids(pre, earlier, listing);
        if run(pre, earlier).listings[listing].bid_count < u64::MAX {
            law_listing_counts_accepted_bids(run(pre, earlier), requests.last(), listing);
        }
    }
}

/// A dataset is derived only by the owner of the credential, who becomes the
/// owner of the dataset: whoever else asks is refused as unauthorized.
pub proof fn law_dataset_needs_owner(
    pre: LedgerView,
    ctx: MintDatasetNftView,
    dataset_uri: Seq<char>,
    category: Seq<char>,
    now: i64,
)
    ensures
        mint_dataset_nft_refusal(pre, ctx) is None ==> {
            &&& pre.hnfts.dom().contains(ctx.hnft)
            &&& pre.hnfts[ctx.hnft].owner == ctx.user
            &&& derived_dataset(ctx, dataset_uri, category, now).owner == pre.hnfts[ctx.hnft].owner
        },
        !pre.hnfts.dom().contains(ctx.hnft) || pre.hnfts[ctx.hnft].owner != ctx.user
            ==> mint_dataset_nft_refusal(pre, ctx) == Some(ErrorCode::Unauthorized),
{
}

/// Replacing the contents of a credential keeps its owner and the soulbound
/// mark, and changes nothing in the ledger but the data locator and the
/// proof tag of that credential.
pub proof fn law_append_changes_contents_only(
    pre: LedgerView,
    ctx: AppendHistoryView,
    uri: Seq<char>,
    trait_id: Seq<char>,
)
    requires
        pre.consistent(),
        append_history_refusal(pre, ctx) is None,
    ensures
        with_history(pre, ctx, uri, trait_id).hnfts[ctx.hnft].owner == pre.hnfts[ctx.hnft].owner,
        with_history(pre, ctx, uri, trait_id).hnfts[ctx.hnft].is_soulbound,
        with_history(pre, ctx, uri, trait_id).hnfts[ctx.hnft] == (HNFTView {
            encrypted_data: uri,
            zk_proof: trait_id,
            ..pre.hnfts[ctx.hnft]
        }),
        with_history(pre, ctx, uri, trait_id).hnfts.remove(ctx.hnft) == pre.hnfts.remove(ctx.hnft),
        with_history(pre, ctx, uri, trait_id).listings == pre.listings,
        with_history(pre, ctx, uri, trait_id).bids == pre.bids,
        with_history(pre, ctx, uri, trait_id).datasets == pre.datasets,
        with_history(pre, ctx, uri, trait_id).compounds == pre.compounds,
{
    assert(with_history(pre, ctx, uri, trait_id).hnfts.remove(ctx.hnft) =~= pre.hnfts.remove(
        ctx.hnft,
    ));
}

} // verus!
