//! The notifications that successful requests hand back for observers.

use vstd::prelude::*;
use crate::pubkey::Pubkey;

verus! {

/// A credential was minted, or its contents were replaced.
#[derive(Clone, Copy, Debug, PartialEq, Eq)]
pub struct HNFTMinted {
    pub owner: Pubkey,
    pub hnft: Pubkey,
    pub category: u8,
    pub timestamp: i64,
}

/// What a `HNFTMinted` notification holds.
pub ghost struct HNFTMintedView {
    pub owner: Seq<u8>,
    pub hnft: Seq<u8>,
    pub category: u8,
    pub timestamp: i64,
}

impl View for HNFTMinted {
    type V = HNFTMintedView;

    open spec fn view(&self) -> HNFTMintedView {
        HNFTMintedView {
            owner: self.owner@,
            hnft: self.hnft@,
            category: self.category,
            timestamp: self.timestamp,
        }
    }
}

/// A listing was opened.
#[derive(Clone, Copy, Debug, PartialEq, Eq)]
pub struct DataListed {
    pub listing: Pubkey,
    pub hnft: Pubkey,
    pub price: u64,
    pub currency: u8,
    pub timestamp: i64,
}

/// What a `DataListed` notification holds.
pub ghost struct DataListedView {
    pub listing: Seq<u8>,
    pub hnft: Seq<u8>,
    pub price: u64,
    pub currency: u8,
    pub timestamp: i64,
}

impl View for DataListed {
    type V = DataListedView;

    open spec fn view(&self) -> DataListedView {
        DataListedView {
            listing: self.listing@,
            hnft: self.hnft@,
            price: self.price,
            currency: self.currency,
            timestamp: self.timestamp,
        }
    }
}

/// A bid was placed.
#[derive(Clone, Copy, Debug, PartialEq, Eq)]
pub struct BidPlaced {
    pub listing: Pubkey,
    pub bidder: Pubkey,
    pub amount: u64,
    pub timestamp: i64,
}

/// What a `BidPlaced` notification holds.
pub ghost struct BidPlacedView {
    pub listing: Seq<u8>,
    pub bidder: Seq<u8>,
    pub amount: u64,
    pub timestamp: i64,
}

impl View for BidPlaced {
    type V = BidPlacedView;

    open spec fn view(&self) -> BidPlacedView {
        BidPlacedView {
            listing: self.listing@,
            bidder: self.bidder@,
            amount: self.amount,
            timestamp: self.timestamp,
        }
    }
}

/// A compounding action was recorded.
#[derive(Clone, Copy, Debug, PartialEq, Eq)]
pub struct AutoCompounded {
    pub user: Pubkey,
    pub amount: u64,
    pub yield_pool: Pubkey,
    pub timestamp: i64,
}

/// What an `AutoCompounded` notification holds.
pub ghost struct AutoCompoundedView {
    pub user: Seq<u8>,
    pub amount: u64,
    pub yield_pool: Seq<u8>,
    pub timestamp: i64,
}

impl View for AutoCompounded {
    type V = AutoCompoundedView;

    open spec fn view(&self) -> AutoCompoundedView {
        AutoCompoundedView {
            user: self.user@,
            amount: self.amount,
            yield_pool: self.yield_pool@,
            timestamp: self.timestamp,
        }
    }
}

/// A dataset was derived from a credential.
#[derive(Clone, Debug, PartialEq, Eq)]
pub struct DatasetNFTMinted {
    pub owner: Pubkey,
    pub dataset: Pubkey,
    pub hnft: Pubkey,
    pub category: String,
    pub timestamp: i64,
}

/// What a `DatasetNFTMinted` notification holds.
pub ghost struct DatasetNFTMintedView {
    pub owner: Seq<u8>,
    pub dataset: Seq<u8>,
    pub hnft: Seq<u8>,
    pub category: Seq<char>,
    pub timestamp: i64,
}

impl View for DatasetNFTMinted {
    type V = DatasetNFTMintedView;

    open spec fn view(&self) -> DatasetNFTMintedView {
        DatasetNFTMintedView {
            owner: self.owner@,
            dataset: self.dataset@,
            hnft: self.hnft@,
            category: self.category@,
            timestamp: self.timestamp,
        }
    }
}

} // verus!
