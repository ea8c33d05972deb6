//! A marketplace ledger for encrypted personal-record credentials.
//!
//! A user mints one soulbound identity credential, may derive a tradeable
//! dataset from it, list it for sale, receive bids and record compounding
//! actions. Every record but a compounding entry lives at an address derived
//! from the identifiers it is bound to; that addressing is what makes records
//! unique.
//!
//! The crate has three layers.
//!
//! * The rules of each kind of record, as functions on the records alone:
//!   `HNFT::create`, `HNFT::append`, `DataListing::open`, `Bid::place`,
//!   `Dataset::derive` and `AutoCompoundRecord::record`, in the modules
//!   [`credential`], [`listing`], [`bid`], [`dataset`] and [`compound`].
//! * The [`ledger`], which files records under their addresses, and the
//!   requests on it: `mint_hnft`, `append_history`, `list_data`, `place_bid`,
//!   `mint_dataset_nft`, `auto_compound`, `claim_ubi` and `stake_ubi`. A
//!   request is resolved first ([`accounts`]), then applied; it either changes
//!   the ledger and hands back one notification ([`events`]), or is refused
//!   with an [`error::ErrorCode`] and changes nothing. No request reads a
//!   clock: the time of a request is handed in.
//! * The [`laws`] that hold of every ledger and of every sequence of
//!   requests.

pub mod pubkey;
pub mod address;
pub mod error;
pub mod state;
pub mod events;
pub mod table;
pub mod accounts;
pub mod ledger;
pub mod credential;
pub mod listing;
pub mod bid;
pub mod dataset;
pub mod compound;
pub mod distribution;
pub mod laws;
