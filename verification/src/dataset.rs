//! Deriving a tradeable dataset from a credential.

use vstd::prelude::*;
use crate::accounts::{MintDatasetNft, MintDatasetNftView};
use crate::error::ErrorCode;
use crate::events::{DatasetNFTMinted, DatasetNFTMintedView};
use crate::ledger::{Ledger, LedgerView};
use crate::pubkey::Pubkey;
use crate::state::{Dataset, DatasetView, HNFT};

verus! {

/// A dataset as it is derived from the credential at `hnft_key`:
/// tradeable.
pub open spec fn new_dataset(
    hnft_key: Seq<u8>,
    owner: Seq<u8>,
    dataset_uri: Seq<char>,
    category: Seq<char>,
    now: i64,
) -> DatasetView {
    DatasetView { owner, hnft: hnft_key, dataset_uri, category, created_at: now, is_tradeable: true }
}

/// The notification for the dataset at an address.
pub open spec fn dataset_event(dataset_key: Seq<u8>, dataset: DatasetView, now: i64) -> DatasetNFTMintedView {
    DatasetNFTMintedView {
        owner: dataset.owner,
        dataset: dataset_key,
        hnft: dataset.hnft,
        category: dataset.category,
        timestamp: now,
    }
}

impl Dataset {
    /// The dataset that `owner` derives from the credential at `hnft_key`,
    /// if `owner` owns the credential. The credential is only read.
    pub fn derive(
        hnft: &HNFT,
        hnft_key: Pubkey,
        owner: Pubkey,
        dataset_uri: String,
        category: String,
        now: i64,
    ) -> (result: Result<Dataset, ErrorCode>)
        ensures
            match result {
                Ok(dataset) => {
                    &&& hnft@.owner == owner@
                    &&& dataset@ == new_dataset(hnft_key@, owner@, dataset_uri@, category@, now)
                },
                Err(code) => hnft@.owner != owner@ && code == ErrorCode::Unauthorized,
            },
    {
        match hnft.authorize(&owner) {
            Err(code) => Err(code),
            Ok(_) => Ok(
                Dataset {
                    owner,
                    hnft: hnft_key,
                    dataset_uri,
                    category,
                    created_at: now,
                    is_tradeable: true,
                },
            ),
        }
    }
}

impl DatasetNFTMinted {
    /// The notification for the dataset at an address.
    pub fn of(dataset_key: Pubkey, dataset: &Dataset, now: i64) -> (event: DatasetNFTMinted)
        ensures
            event@ == dataset_event(dataset_key@, dataset@, now),
    {
        DatasetNFTMinted {
            owner: dataset.owner,
            dataset: dataset_key,
            hnft: dataset.hnft,
            category: dataset.category.clone(),
            timestamp: now,
        }
    }
}

/// Why a request to derive a dataset is refused, if it is: no credential
/// stands at the address, or the caller does not own it; or a dataset stands
/// already at the address derived from the credential.
pub open spec fn mint_dataset_nft_refusal(pre: LedgerView, ctx: MintDatasetNftView) -> Option<
    ErrorCode,
> {
    if !pre.hnfts.dom().contains(ctx.hnft) || pre.hnfts[ctx.hnft].owner != ctx.user {
        Some(ErrorCode::Unauthorized)
    } else if pre.datasets.dom().contains(ctx.dataset) {
        Some(ErrorCode::HNFTAlreadyExists)
    } else {
        None
    }
}

/// The dataset that a request derives, owned by the caller.
pub open spec fn derived_dataset(
    ctx: MintDatasetNftView,
    dataset_uri: Seq<char>,
    category: Seq<char>,
    now: i64,
) -> DatasetView {
    new_dataset(ctx.hnft, ctx.user, dataset_uri, category, now)
}

/// The ledger after a dataset was derived. The credential is as it was.
pub open spec fn with_dataset(
    pre: LedgerView,
    ctx: MintDatasetNftView,
    dataset_uri: Seq<char>,
    category: Seq<char>,
    now: i64,
) -> LedgerView {
    LedgerView {
        datasets: pre.datasets.insert(ctx.dataset, derived_dataset(ctx, dataset_uri, category, now)),
        ..pre
    }
}

/// The notification of a derived dataset.
pub open spec fn mint_dataset_nft_event(ctx: MintDatasetNftView, category: Seq<char>, now: i64) -> DatasetNFTMintedView {
    DatasetNFTMintedView {
        owner: ctx.user,
        dataset: ctx.dataset,
        hnft: ctx.hnft,
        category,
        timestamp: now,
    }
}

/// Deriving a dataset keeps a consistent ledger consistent.
pub proof fn lemma_with_dataset_consistent(
    pre: LedgerView,
    ctx: MintDatasetNftView,
    dataset_uri: Seq<char>,
    category: Seq<char>,
    now: i64,
)
    requires
        pre.consistent(),
        ctx.wf(),
        mint_dataset_nft_refusal(pre, ctx) is None,
    ensures
        with_dataset(pre, ctx, dataset_uri, category, now).consistent(),
{
    let post = with_dataset(pre, ctx, dataset_uri, category, now);
    assert forall|l: Seq<u8>| post.bids_on(l) == pre.bids_on(l) by {
        assert(post.bids_on(l) =~= pre.bids_on(l));
    }
}

/// Derives a tradeable dataset from the credential of the caller. The
/// credential stays soulbound and is not changed; the dataset has a life of
/// its own.
pub fn mint_dataset_nft(
    ledger: &mut Ledger,
    ctx: &MintDatasetNft,
    dataset_uri: String,
    category: String,
    now: i64,
) -> (result: Result<DatasetNFTMinted, ErrorCode>)
    ensures
        final(ledger)@.consistent(),
        match result {
            Ok(event) => {
                &&& mint_dataset_nft_refusal(old(ledger)@, ctx@) is None
                &&& final(ledger)@ == with_dataset(old(ledger)@, ctx@, dataset_uri@, category@, now)
                &&& event@ == mint_dataset_nft_event(ctx@, category@, now)
            },
            Err(code) => {
                &&& mint_dataset_nft_refusal(old(ledger)@, ctx@) == Some(code)
                &&& final(ledger)@ == old(ledger)@
            },
        },
{
    let user = ctx.user();
    let hnft_key = ctx.hnft();
    let dataset_key = ctx.dataset();
    let dataset = match ledger.hnft(&hnft_key) {
        None => {
            return Err(ErrorCode::Unauthorized);
        },
        Some(hnft) => match Dataset::derive(hnft, hnft_key, user, dataset_uri, category, now) {
            Err(code) => {
                return Err(code);
            },
            Ok(dataset) => dataset,
        },
    };
    if ledger.dataset(&dataset_key).is_some() {
        return Err(ErrorCode::HNFTAlreadyExists);
    }
    let event = DatasetNFTMinted::of(dataset_key, &dataset, now);
    let mut store = ledger.open();
    proof {
        lemma_with_dataset_consistent(store@, ctx@, dataset_uri@, category@, now);
    }
    store.datasets.insert(dataset_key, dataset);
    ledger.close(store);
    Ok(event)
}

} // verus!
