//! The ledger: every record, filed under its address.

use vstd::prelude::*;
use crate::address::{bid_slot, dataset_slot, hnft_slot, listing_slot};
use crate::pubkey::Pubkey;
use crate::state::{AutoCompoundRecord, AutoCompoundRecordView, Bid, BidView, DataListing,
    DataListingView, Dataset, DatasetView, HNFT, HNFTView};
use crate::table::Table;

verus! {

/// What a ledger holds: the records of each kind under the bytes of their
/// addresses, and the log of compounding actions in the order they came.
pub ghost struct LedgerView {
    pub hnfts: Map<Seq<u8>, HNFTView>,
    pub listings: Map<Seq<u8>, DataListingView>,
    pub bids: Map<Seq<u8>, BidView>,
    pub datasets: Map<Seq<u8>, DatasetView>,
    pub compounds: Seq<AutoCompoundRecordView>,
}

impl LedgerView {
    /// The ledger without any record.
    pub open spec fn empty() -> LedgerView {
        LedgerView {
            hnfts: Map::empty(),
            listings: Map::empty(),
            bids: Map::empty(),
            datasets: Map::empty(),
            compounds: Seq::empty(),
        }
    }

    /// The addresses of the bids that were placed on a listing.
    pub open spec fn bids_on(self, listing: Seq<u8>) -> Set<Seq<u8>> {
        Set::new(|b: Seq<u8>| self.bids.dom().contains(b) && self.bids[b].listing == listing)
    }

    /// Every credential is soulbound and stands at the address derived from
    /// its owner; one that is listed has its listing, at the address derived
    /// from the credential.
    pub open spec fn credentials_consistent(self) -> bool {
        forall|h: Seq<u8>| #[trigger]
            self.hnfts.dom().contains(h) ==> {
                &&& hnft_slot(self.hnfts[h].owner) == Some(h)
                &&& self.hnfts[h].is_soulbound
                &&& self.hnfts[h].is_listed ==> {
                    &&& listing_slot(h) is Some
                    &&& self.listings.dom().contains(listing_slot(h).unwrap())
                    &&& self.listings[listing_slot(h).unwrap()].hnft == h
                }
            }
    }

    /// Every listing is active, stands at the address derived from its
    /// credential, was opened by the owner of that credential at the price
    /// the credential shows, and counts the bids that were placed on it.
    pub open spec fn listings_consistent(self) -> bool {
        forall|l: Seq<u8>| #[trigger]
            self.listings.dom().contains(l) ==> {
                let listing = self.listings[l];
                &&& listing_slot(listing.hnft) == Some(l)
                &&& self.hnfts.dom().contains(listing.hnft)
                &&& self.hnfts[listing.hnft].is_listed
                &&& self.hnfts[listing.hnft].owner == listing.seller
                &&& self.hnfts[listing.hnft].listing_price == listing.price
                &&& listing.is_active
                &&& listing.bid_count == self.bids_on(l).len()
            }
    }

    /// Every bid is active, stands at the address derived from its listing
    /// and its bidder, and offers at least the price of that listing. The
    /// bids can be counted by the machine.
    pub open spec fn bids_consistent(self) -> bool {
        &&& self.bids.dom().finite()
        &&& self.bids.dom().len() <= usize::MAX
        &&& forall|b: Seq<u8>| #[trigger]
            self.bids.dom().contains(b) ==> {
                let bid = self.bids[b];
                &&& bid_slot(bid.listing, bid.bidder) == Some(b)
                &&& self.listings.dom().contains(bid.listing)
                &&& bid.amount >= self.listings[bid.listing].price
                &&& bid.is_active
            }
    }

    /// Every dataset is tradeable, stands at the address derived from its
    /// credential, and belongs to the owner of that credential.
    pub open spec fn datasets_consistent(self) -> bool {
        forall|d: Seq<u8>| #[trigger]
            self.datasets.dom().contains(d) ==> {
                let dataset = self.datasets[d];
                &&& dataset_slot(dataset.hnft) == Some(d)
                &&& self.hnfts.dom().contains(dataset.hnft)
                &&& self.hnfts[dataset.hnft].owner == dataset.owner
                &&& dataset.is_tradeable
            }
    }

    /// What holds of every ledger that requests have built.
    pub open spec fn consistent(self) -> bool {
        &&& self.credentials_consistent()
        &&& self.listings_consistent()
        &&& self.bids_consistent()
        &&& self.datasets_consistent()
    }
}

/// What each entry of a compounding log holds, in order.
pub open spec fn log_view(log: Seq<AutoCompoundRecord>) -> Seq<AutoCompoundRecordView> {
    Seq::new(log.len(), |i: int| log[i]@)
}

/// The records of a ledger, by kind. Nothing is claimed of how they relate.
pub(crate) struct Store {
    pub hnfts: Table<HNFT>,
    pub listings: Table<DataListing>,
    pub bids: Table<Bid>,
    pub datasets: Table<Dataset>,
    pub compounds: Vec<AutoCompoundRecord>,
}

impl Store {
    /// What the store holds.
    pub(crate) open spec fn view(&self) -> LedgerView {
        LedgerView {
            hnfts: self.hnfts@,
            listings: self.listings@,
            bids: self.bids@,
            datasets: self.datasets@,
            compounds: log_view(self.compounds@),
        }
    }
}

impl Store {
    /// A store without any record.
    pub(crate) fn new() -> (store: Store)
        ensures
            store@ == LedgerView::empty(),
    {
        let store = Store {
            hnfts: Table::new(),
            listings: Table::new(),
            bids: Table::new(),
            datasets: Table::new(),
            compounds: Vec::new(),
        };
        assert(store@.compounds =~= Seq::empty());
        store
    }
}

/// The records that requests have built. A ledger is consistent at all
/// times.
pub struct Ledger {
    store: Store,
}

impl View for Ledger {
    type V = LedgerView;

    closed spec fn view(&self) -> LedgerView {
        self.store@
    }
}

impl Ledger {
    #[verifier::type_invariant]
    spec fn inv(self) -> bool {
        self.store@.consistent()
    }

    /// The ledger before any request.
    pub fn new() -> (ledger: Ledger)
        ensures
            ledger@ == LedgerView::empty(),
    {
        Ledger { store: Store::new() }
    }

    /// Hands out the records and leaves the ledger empty.
    pub(crate) fn open(&mut self) -> (store: Store)
        ensures
            store@ == old(self)@,
            store@.consistent(),
            final(self)@ == LedgerView::empty(),
    {
        proof {
            use_type_invariant(&*self);
        }
        let mut taken = Ledger::new();
        std::mem::swap(self, &mut taken);
        let Ledger { store } = taken;
        store
    }

    /// Takes the records as the new contents of the ledger.
    pub(crate) fn close(&mut self, store: Store)
        requires
            store@.consistent(),
        ensures
            final(self)@ == store@,
    {
        *self = Ledger { store };
    }

    /// The credential at the address, if there is one.
    pub fn hnft(&self, key: &Pubkey) -> (found: Option<&HNFT>)
        ensures
            self@.consistent(),
            match found {
                Some(record) => self@.hnfts.dom().contains(key@) && self@.hnfts[key@] == record@,
                None => !self@.hnfts.dom().contains(key@),
            },
    {
        proof {
            use_type_invariant(self);
        }
        self.store.hnfts.get(key)
    }

    /// The listing at the address, if there is one.
    pub fn listing(&self, key: &Pubkey) -> (found: Option<&DataListing>)
        ensures
            self@.consistent(),
            match found {
                Some(record) => self@.listings.dom().contains(key@) && self@.listings[key@]
                    == record@,
                None => !self@.listings.dom().contains(key@),
            },
    {
        proof {
            use_type_invariant(self);
        }
        self.store.listings.get(key)
    }

    /// The bid at the address, if there is one.
    pub fn bid(&self, key: &Pubkey) -> (found: Option<&Bid>)
        ensures
            self@.consistent(),
            match found {
                Some(record) => self@.bids.dom().contains(key@) && self@.bids[key@] == record@,
                None => !self@.bids.dom().contains(key@),
            },
    {
        proof {
            use_type_invariant(self);
        }
        self.store.bids.get(key)
    }

    /// The dataset at the address, if there is one.
    pub fn dataset(&self, key: &Pubkey) -> (found: Option<&Dataset>)
        ensures
            self@.consistent(),
            match found {
                Some(record) => self@.datasets.dom().contains(key@) && self@.datasets[key@]
                    == record@,
                None => !self@.datasets.dom().contains(key@),
            },
    {
        proof {
            use_type_invariant(self);
        }
        self.store.datasets.get(key)
    }

    /// The log of compounding actions, oldest first.
    pub fn compounds(&self) -> (log: &Vec<AutoCompoundRecord>)
        ensures
            self@.consistent(),
            log_view(log@) == self@.compounds,
    {
        proof {
            use_type_invariant(self);
        }
        &self.store.compounds
    }
}

} // verus!
