//! Why a request is refused.

use vstd::prelude::*;

verus! {

/// The reasons for which a request is refused. A refused request leaves the
/// ledger as it was.
#[derive(Clone, Copy, Debug, PartialEq, Eq, Structural)]
pub enum ErrorCode {
    /// The privacy proof was not accepted for the encrypted data.
    InvalidZKProof,
    /// The caller is not the owner that the request needs.
    Unauthorized,
    /// The credential is already listed.
    AlreadyListed,
    /// There is no active listing at the address that was bid on.
    ListingInactive,
    /// The amount of the bid is below the price of the listing.
    BidTooLow,
    /// A record already stands at the address that the new one would take.
    HNFTAlreadyExists,
}

impl ErrorCode {
    /// The message of each reason, as a sequence of characters.
    pub open spec fn spec_message(self) -> Seq<char> {
        match self {
            ErrorCode::InvalidZKProof => "Invalid ZK proof"@,
            ErrorCode::Unauthorized => "Unauthorized access"@,
            ErrorCode::AlreadyListed => "HNFT already listed"@,
            ErrorCode::ListingInactive => "Listing is inactive"@,
            ErrorCode::BidTooLow => "Bid amount too low"@,
            ErrorCode::HNFTAlreadyExists => "HNFT already exists for this user"@,
        }
    }

    /// The message that describes the reason to a reader.
    pub fn message(&self) -> (text: String)
        ensures
            text@ == self.spec_message(),
    {
        match self {
            ErrorCode::InvalidZKProof => "Invalid ZK proof".to_owned(),
            ErrorCode::Unauthorized => "Unauthorized access".to_owned(),
            ErrorCode::AlreadyListed => "HNFT already listed".to_owned(),
            ErrorCode::ListingInactive => "Listing is inactive".to_owned(),
            ErrorCode::BidTooLow => "Bid amount too low".to_owned(),
            ErrorCode::HNFTAlreadyExists => "HNFT already exists for this user".to_owned(),
        }
    }
}

} // verus!
