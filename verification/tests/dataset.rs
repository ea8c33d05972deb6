use psychat::accounts::{AutoCompound, ClaimUbi, MintDatasetNft, MintHNFT, StakeUbi};
use psychat::compound::auto_compound;
use psychat::credential::mint_hnft;
use psychat::dataset::mint_dataset_nft;
use psychat::distribution::{claim_ubi, stake_ubi};
use psychat::error::ErrorCode;
use psychat::events::{AutoCompounded, DatasetNFTMinted};
use psychat::ledger::Ledger;
use psychat::pubkey::Pubkey;
use psychat::state::{AutoCompoundRecord, Dataset, HNFT};

fn party(byte: u8) -> Pubkey {
    Pubkey::new_from_array([byte; 32])
}

fn word(s: &str) -> String {
    s.to_string()
}

#[test]
fn derive_fills_the_dataset() {
    let hnft = HNFT::create(party(1), word("data"), word("proof"), 1, 10).unwrap();
    assert_eq!(
        Dataset::derive(&hnft, party(7), party(1), word("ipfs://d"), word("sleep"), 40),
        Ok(Dataset {
            owner: party(1),
            hnft: party(7),
            dataset_uri: word("ipfs://d"),
            category: word("sleep"),
            created_at: 40,
            is_tradeable: true,
        })
    );
}

#[test]
fn derive_by_a_stranger_is_unauthorized() {
    let hnft = HNFT::create(party(1), word("data"), word("proof"), 1, 10).unwrap();
    assert_eq!(
        Dataset::derive(&hnft, party(7), party(2), word("ipfs://d"), word("sleep"), 40),
        Err(ErrorCode::Unauthorized)
    );
}

#[test]
fn mint_dataset_files_the_dataset_and_leaves_the_credential() {
    let mut ledger = Ledger::new();
    let mint = MintHNFT::resolve(party(1)).unwrap();
    mint_hnft(&mut ledger, &mint, word("data"), word("proof"), 1, 10).unwrap();
    let before = ledger.hnft(&mint.hnft()).unwrap().clone();
    let ctx = MintDatasetNft::resolve(party(1)).unwrap();
    assert_eq!(ctx.user(), party(1));
    assert_eq!(ctx.hnft(), mint.hnft());
    let event = mint_dataset_nft(&mut ledger, &ctx, word("ipfs://d"), word("sleep"), 40).unwrap();
    assert_eq!(
        event,
        DatasetNFTMinted {
            owner: party(1),
            dataset: ctx.dataset(),
            hnft: mint.hnft(),
            category: word("sleep"),
            timestamp: 40,
        }
    );
    assert_eq!(
        ledger.dataset(&ctx.dataset()).unwrap(),
        &Dataset {
            owner: party(1),
            hnft: mint.hnft(),
            dataset_uri: word("ipfs://d"),
            category: word("sleep"),
            created_at: 40,
            is_tradeable: true,
        }
    );
    assert_eq!(ledger.hnft(&mint.hnft()).unwrap(), &before);
    assert!(ledger.hnft(&mint.hnft()).unwrap().is_soulbound);
}

#[test]
fn mint_dataset_without_a_credential_is_unauthorized() {
    let mut ledger = Ledger::new();
    let other = MintHNFT::resolve(party(2)).unwrap();
    mint_hnft(&mut ledger, &other, word("data"), word("proof"), 1, 10).unwrap();
    let ctx = MintDatasetNft::resolve(party(1)).unwrap();
    assert_eq!(
        mint_dataset_nft(&mut ledger, &ctx, word("ipfs://d"), word("sleep"), 40),
        Err(ErrorCode::Unauthorized)
    );
    assert!(ledger.dataset(&ctx.dataset()).is_none());
}

#[test]
fn second_dataset_of_a_credential_is_refused() {
    let mut ledger = Ledger::new();
    let mint = MintHNFT::resolve(party(1)).unwrap();
    mint_hnft(&mut ledger, &mint, word("data"), word("proof"), 1, 10).unwrap();
    let ctx = MintDatasetNft::resolve(party(1)).unwrap();
    mint_dataset_nft(&mut ledger, &ctx, word("ipfs://d"), word("sleep"), 40).unwrap();
    assert_eq!(
        mint_dataset_nft(&mut ledger, &ctx, word("ipfs://e"), word("mood"), 41),
        Err(ErrorCode::HNFTAlreadyExists)
    );
    assert_eq!(ledger.dataset(&ctx.dataset()).unwrap().dataset_uri, "ipfs://d");
}

#[test]
fn compounding_appends_to_the_log() {
    let mut ledger = Ledger::new();
    assert!(ledger.compounds().is_empty());
    let ctx = AutoCompound::resolve(party(1));
    assert_eq!(
        auto_compound(&mut ledger, &ctx, 500, party(8), 60),
        Ok(AutoCompounded { user: party(1), amount: 500, yield_pool: party(8), timestamp: 60 })
    );
    assert_eq!(
        auto_compound(&mut ledger, &ctx, 0, party(9), 61),
        Ok(AutoCompounded { user: party(1), amount: 0, yield_pool: party(9), timestamp: 61 })
    );
    assert_eq!(
        ledger.compounds(),
        &vec![
            AutoCompoundRecord { user: party(1), amount: 500, yield_pool: party(8), timestamp: 60 },
            AutoCompoundRecord { user: party(1), amount: 0, yield_pool: party(9), timestamp: 61 },
        ]
    );
}

#[test]
fn record_fills_the_entry() {
    let entry = AutoCompoundRecord::record(party(1), 77, party(2), 3);
    assert_eq!(
        entry,
        AutoCompoundRecord { user: party(1), amount: 77, yield_pool: party(2), timestamp: 3 }
    );
    assert_eq!(
        AutoCompounded::of(&entry),
        AutoCompounded { user: party(1), amount: 77, yield_pool: party(2), timestamp: 3 }
    );
}

#[test]
fn distributions_are_accepted() {
    assert_eq!(claim_ubi(&ClaimUbi::resolve(party(1)), word("proof"), word("sleep")), Ok(()));
    assert_eq!(claim_ubi(&ClaimUbi::resolve(party(1)), word(""), word("")), Ok(()));
    assert_eq!(stake_ubi(&StakeUbi::resolve(party(1))), Ok(()));
}

#[test]
fn every_error_has_its_message() {
    assert_eq!(ErrorCode::InvalidZKProof.message(), "Invalid ZK proof");
    assert_eq!(ErrorCode::Unauthorized.message(), "Unauthorized access");
    assert_eq!(ErrorCode::AlreadyListed.message(), "HNFT already listed");
    assert_eq!(ErrorCode::ListingInactive.message(), "Listing is inactive");
    assert_eq!(ErrorCode::BidTooLow.message(), "Bid amount too low");
    assert_eq!(ErrorCode::HNFTAlreadyExists.message(), "HNFT already exists for this user");
}
