//! The addresses that each kind of request names.
//!
//! A request is resolved before it is applied: from the caller and the
//! records that the caller points at, the addresses of the records that the
//! request creates are derived. A resolved request cannot be built in any
//! other way, so the addresses it holds are always the derived ones.

use vstd::prelude::*;
use crate::address::{bid_address, bid_slot, dataset_address, dataset_slot, hnft_address, hnft_slot,
    listing_address, listing_slot};
use crate::pubkey::Pubkey;

verus! {

/// A request to mint the credential of `user`.
#[derive(Clone, Copy, Debug)]
pub struct MintHNFT {
    user: Pubkey,
    hnft: Pubkey,
}

/// What a request to mint a credential names.
pub ghost struct MintHNFTView {
    pub user: Seq<u8>,
    pub hnft: Seq<u8>,
}

impl MintHNFTView {
    /// The credential stands at the address derived from the user.
    pub open spec fn wf(self) -> bool {
        hnft_slot(self.user) == Some(self.hnft)
    }
}

impl View for MintHNFT {
    type V = MintHNFTView;

    closed spec fn view(&self) -> MintHNFTView {
        MintHNFTView { user: self.user@, hnft: self.hnft@ }
    }
}

impl MintHNFT {
    #[verifier::type_invariant]
    spec fn inv(self) -> bool {
        self@.wf()
    }

    /// The request of `user`, unless no address can be derived for the
    /// credential.
    pub fn resolve(user: Pubkey) -> (found: Option<MintHNFT>)
        ensures
            match found {
                Some(ctx) => ctx@.user == user@ && ctx@.wf(),
                None => hnft_slot(user@) is None,
            },
    {
        match hnft_address(&user) {
            Some(hnft) => Some(MintHNFT { user, hnft }),
            None => None,
        }
    }

    /// The caller.
    pub fn user(&self) -> (key: Pubkey)
        ensures
            key@ == self@.user,
    {
        self.user
    }

    /// The address of the credential.
    pub fn hnft(&self) -> (key: Pubkey)
        ensures
            key@ == self@.hnft,
            self@.wf(),
    {
        proof {
            use_type_invariant(self);
        }
        self.hnft
    }
}

/// A request of `user` to list the credential at `hnft`.
#[derive(Clone, Copy, Debug)]
pub struct ListData {
    user: Pubkey,
    hnft: Pubkey,
    listing: Pubkey,
}

/// What a request to open a listing names.
pub ghost struct ListDataView {
    pub user: Seq<u8>,
    pub hnft: Seq<u8>,
    pub listing: Seq<u8>,
}

impl ListDataView {
    /// The listing stands at the address derived from the credential.
    pub open spec fn wf(self) -> bool {
        listing_slot(self.hnft) == Some(self.listing)
    }
}

impl View for ListData {
    type V = ListDataView;

    closed spec fn view(&self) -> ListDataView {
        ListDataView { user: self.user@, hnft: self.hnft@, listing: self.listing@ }
    }
}

impl ListData {
    #[verifier::type_invariant]
    spec fn inv(self) -> bool {
        self@.wf()
    }

    /// The request of `user` for the credential at `hnft`, unless no address
    /// can be derived for the listing.
    pub fn resolve(user: Pubkey, hnft: Pubkey) -> (found: Option<ListData>)
        ensures
            match found {
                Some(ctx) => ctx@.user == user@ && ctx@.hnft == hnft@ && ctx@.wf(),
                None => listing_slot(hnft@) is None,
            },
    {
        match listing_address(&hnft) {
            Some(listing) => Some(ListData { user, hnft, listing }),
            None => None,
        }
    }

    /// The caller.
    pub fn user(&self) -> (key: Pubkey)
        ensures
            key@ == self@.user,
    {
        self.user
    }

    /// The address of the credential.
    pub fn hnft(&self) -> (key: Pubkey)
        ensures
            key@ == self@.hnft,
    {
        self.hnft
    }

    /// The address of the listing.
    pub fn listing(&self) -> (key: Pubkey)
        ensures
            key@ == self@.listing,
            self@.wf(),
    {
        proof {
            use_type_invariant(self);
        }
        self.listing
    }
}

/// A request of `bidder` to bid on the listing at `listing`.
#[derive(Clone, Copy, Debug)]
pub struct PlaceBid {
    bidder: Pubkey,
    listing: Pubkey,
    bid: Pubkey,
}

/// What a request to place a bid names.
pub ghost struct PlaceBidView {
    pub bidder: Seq<u8>,
    pub listing: Seq<u8>,
    pub bid: Seq<u8>,
}

impl PlaceBidView {
    /// The bid stands at the address derived from the listing and the bidder.
    pub open spec fn wf(self) -> bool {
        bid_slot(self.listing, self.bidder) == Some(self.bid)
    }
}

impl View for PlaceBid {
    type V = PlaceBidView;

    closed spec fn view(&self) -> PlaceBidView {
        PlaceBidView { bidder: self.bidder@, listing: self.listing@, bid: self.bid@ }
    }
}

impl PlaceBid {
    #[verifier::type_invariant]
    spec fn inv(self) -> bool {
        self@.wf()
    }

    /// The request of `bidder` for the listing at `listing`, unless no
    /// address can be derived for the bid.
    pub fn resolve(bidder: Pubkey, listing: Pubkey) -> (found: Option<PlaceBid>)
        ensures
            match found {
                Some(ctx) => ctx@.bidder == bidder@ && ctx@.listing == listing@ && ctx@.wf(),
                None => bid_slot(listing@, bidder@) is None,
            },
    {
        match bid_address(&listing, &bidder) {
            Some(bid) => Some(PlaceBid { bidder, listing, bid }),
            None => None,
        }
    }

    /// The caller.
    pub fn bidder(&self) -> (key: Pubkey)
        ensures
            key@ == self@.bidder,
    {
        self.bidder
    }

    /// The address of the listing.
    pub fn listing(&self) -> (key: Pubkey)
        ensures
            key@ == self@.listing,
    {
        self.listing
    }

    /// The address of the bid.
    pub fn bid(&self) -> (key: Pubkey)
        ensures
            key@ == self@.bid,
            self@.wf(),
    {
        proof {
            use_type_invariant(self);
        }
        self.bid
    }
}

/// A request of `user` to record a compounding action.
#[derive(Clone, Copy, Debug)]
pub struct AutoCompound {
    pub user: Pubkey,
}

impl AutoCompound {
    /// The request of `user`.
    pub fn resolve(user: Pubkey) -> (ctx: AutoCompound)
        ensures
            ctx.user == user,
    {
        AutoCompound { user }
    }
}

/// A request of `user` to replace the contents of their credential.
#[derive(Clone, Copy, Debug)]
pub struct AppendHistory {
    user: Pubkey,
    hnft: Pubkey,
}

/// What a request to replace the contents of a credential names.
pub ghost struct AppendHistoryView {
    pub user: Seq<u8>,
    pub hnft: Seq<u8>,
}

impl AppendHistoryView {
    /// The credential stands at the address derived from the user.
    pub open spec fn wf(self) -> bool {
        hnft_slot(self.user) == Some(self.hnft)
    }
}

impl View for AppendHistory {
    type V = AppendHistoryView;

    closed spec fn view(&self) -> AppendHistoryView {
        AppendHistoryView { user: self.user@, hnft: self.hnft@ }
    }
}

impl AppendHistory {
    #[verifier::type_invariant]
    spec fn inv(self) -> bool {
        self@.wf()
    }

    /// The request of `user`, unless no address can be derived for the
    /// credential.
    pub fn resolve(user: Pubkey) -> (found: Option<AppendHistory>)
        ensures
            match found {
                Some(ctx) => ctx@.user == user@ && ctx@.wf(),
                None => hnft_slot(user@) is None,
            },
    {
        match hnft_address(&user) {
            Some(hnft) => Some(AppendHistory { user, hnft }),
            None => None,
        }
    }

    /// The caller.
    pub fn user(&self) -> (key: Pubkey)
        ensures
            key@ == self@.user,
    {
        self.user
    }

    /// The address of the credential.
    pub fn hnft(&self) -> (key: Pubkey)
        ensures
            key@ == self@.hnft,
            self@.wf(),
    {
        proof {
            use_type_invariant(self);
        }
        self.hnft
    }
}

/// A request of `user` to claim a distribution.
#[derive(Clone, Copy, Debug)]
pub struct ClaimUbi {
    pub user: Pubkey,
}

impl ClaimUbi {
    /// The request of `user`.
    pub fn resolve(user: Pubkey) -> (ctx: ClaimUbi)
        ensures
            ctx.user == user,
    {
        ClaimUbi { user }
    }
}

/// A request of `user` to stake a distribution.
#[derive(Clone, Copy, Debug)]
pub struct StakeUbi {
    pub user: Pubkey,
}

impl StakeUbi {
    /// The request of `user`.
    pub fn resolve(user: Pubkey) -> (ctx: StakeUbi)
        ensures
            ctx.user == user,
    {
        StakeUbi { user }
    }
}

/// A request of `user` to derive a dataset from their credential.
#[derive(Clone, Copy, Debug)]
pub struct MintDatasetNft {
    user: Pubkey,
    hnft: Pubkey,
    dataset: Pubkey,
}

/// What a request to derive a dataset names.
pub ghost struct MintDatasetNftView {
    pub user: Seq<u8>,
    pub hnft: Seq<u8>,
    pub dataset: Seq<u8>,
}

impl MintDatasetNftView {
    /// The credential stands at the address derived from the user, and the
    /// dataset at the address derived from the credential.
    pub open spec fn wf(self) -> bool {
        &&& hnft_slot(self.user) == Some(self.hnft)
        &&& dataset_slot(self.hnft) == Some(self.dataset)
    }
}

impl View for MintDatasetNft {
    type V = MintDatasetNftView;

    closed spec fn view(&self) -> MintDatasetNftView {
        MintDatasetNftView { user: self.user@, hnft: self.hnft@, dataset: self.dataset@ }
    }
}

impl MintDatasetNft {
    #[verifier::type_invariant]
    spec fn inv(self) -> bool {
        self@.wf()
    }

    /// The request of `user`, unless no address can be derived for the
    /// credential or for the dataset.
    pub fn resolve(user: Pubkey) -> (found: Option<MintDatasetNft>)
        ensures
            match found {
                Some(ctx) => ctx@.user == user@ && ctx@.wf(),
                None => hnft_slot(user@) is None || dataset_slot(hnft_slot(user@).unwrap()) is None,
            },
    {
        match hnft_address(&user) {
            Some(hnft) => match dataset_address(&hnft) {
                Some(dataset) => Some(MintDatasetNft { user, hnft, dataset }),
                None => None,
            },
            None => None,
        }
    }

    /// The caller.
    pub fn user(&self) -> (key: Pubkey)
        ensures
            key@ == self@.user,
    {
        self.user
    }

    /// The address of the credential.
    pub fn hnft(&self) -> (key: Pubkey)
        ensures
            key@ == self@.hnft,
    {
        self.hnft
    }

    /// The address of the dataset.
    pub fn dataset(&self) -> (key: Pubkey)
        ensures
            key@ == self@.dataset,
            self@.wf(),
    {
        proof {
            use_type_invariant(self);
        }
        self.dataset
    }
}

} // verus!
