//! The records that the ledger stores, and what each one means.

use vstd::prelude::*;
use crate::pubkey::Pubkey;

verus! {

/// The soulbound identity credential of one user: encrypted data and the
/// privacy proof that goes with it.
#[derive(Clone, Debug, PartialEq, Eq)]
pub struct HNFT {
    pub owner: Pubkey,
    pub encrypted_data: String,
    pub zk_proof: String,
    pub category: u8,
    pub mint_timestamp: i64,
    pub is_listed: bool,
    pub is_soulbound: bool,
    pub listing_price: u64,
}

/// What an identity credential holds.
pub ghost struct HNFTView {
    pub owner: Seq<u8>,
    pub encrypted_data: Seq<char>,
    pub zk_proof: Seq<char>,
    pub category: u8,
    pub mint_timestamp: i64,
    pub is_listed: bool,
    pub is_soulbound: bool,
    pub listing_price: u64,
}

impl View for HNFT {
    type V = HNFTView;

    open spec fn view(&self) -> HNFTView {
        HNFTView {
            owner: self.owner@,
            encrypted_data: self.encrypted_data@,
            zk_proof: self.zk_proof@,
            category: self.category,
            mint_timestamp: self.mint_timestamp,
            is_listed: self.is_listed,
            is_soulbound: self.is_soulbound,
            listing_price: self.listing_price,
        }
    }
}

/// An offer to sell a credential at a price.
#[derive(Clone, Debug, PartialEq, Eq)]
pub struct DataListing {
    pub hnft: Pubkey,
    pub seller: Pubkey,
    pub price: u64,
    pub currency: u8,
    pub description: String,
    pub created_at: i64,
    pub is_active: bool,
    pub bid_count: u64,
}

/// What a listing holds.
pub ghost struct DataListingView {
    pub hnft: Seq<u8>,
    pub seller: Seq<u8>,
    pub price: u64,
    pub currency: u8,
    pub description: Seq<char>,
    pub created_at: i64,
    pub is_active: bool,
    pub bid_count: u64,
}

impl View for DataListing {
    type V = DataListingView;

    open spec fn view(&self) -> DataListingView {
        DataListingView {
            hnft: self.hnft@,
            seller: self.seller@,
            price: self.price,
            currency: self.currency,
            description: self.description@,
            created_at: self.created_at,
            is_active: self.is_active,
            bid_count: self.bid_count,
        }
    }
}

/// An offer to buy against a listing.
#[derive(Clone, Copy, Debug, PartialEq, Eq)]
pub struct Bid {
    pub listing: Pubkey,
    pub bidder: Pubkey,
    pub amount: u64,
    pub timestamp: i64,
    pub is_active: bool,
}

/// What a bid holds.
pub ghost struct BidView {
    pub listing: Seq<u8>,
    pub bidder: Seq<u8>,
    pub amount: u64,
    pub timestamp: i64,
    pub is_active: bool,
}

impl View for Bid {
    type V = BidView;

    open spec fn view(&self) -> BidView {
        BidView {
            listing: self.listing@,
            bidder: self.bidder@,
            amount: self.amount,
            timestamp: self.timestamp,
            is_active: self.is_active,
        }
    }
}

/// One entry of the log of compounding actions.
#[derive(Clone, Copy, Debug, PartialEq, Eq)]
pub struct AutoCompoundRecord {
    pub user: Pubkey,
    pub amount: u64,
    pub yield_pool: Pubkey,
    pub timestamp: i64,
}

/// What an entry of the compounding log holds.
pub ghost struct AutoCompoundRecordView {
    pub user: Seq<u8>,
    pub amount: u64,
    pub yield_pool: Seq<u8>,
    pub timestamp: i64,
}

impl View for AutoCompoundRecord {
    type V = AutoCompoundRecordView;

    open spec fn view(&self) -> AutoCompoundRecordView {
        AutoCompoundRecordView {
            user: self.user@,
            amount: self.amount,
            yield_pool: self.yield_pool@,
            timestamp: self.timestamp,
        }
    }
}

/// A tradeable asset derived from an identity credential.
#[derive(Clone, Debug, PartialEq, Eq)]
pub struct Dataset {
    pub owner: Pubkey,
    pub hnft: Pubkey,
    pub dataset_uri: String,
    pub category: String,
    pub created_at: i64,
    pub is_tradeable: bool,
}

/// What a dataset holds.
pub ghost struct DatasetView {
    pub owner: Seq<u8>,
    pub hnft: Seq<u8>,
    pub dataset_uri: Seq<char>,
    pub category: Seq<char>,
    pub created_at: i64,
    pub is_tradeable: bool,
}

impl View for Dataset {
    type V = DatasetView;

    open spec fn view(&self) -> DatasetView {
        DatasetView {
            owner: self.owner@,
            hnft: self.hnft@,
            dataset_uri: self.dataset_uri@,
            category: self.category@,
            created_at: self.created_at,
            is_tradeable: self.is_tradeable,
        }
    }
}

} // verus!
