use psychat::accounts::{AppendHistory, AutoCompound, ListData, MintHNFT};
use psychat::compound::auto_compound;
use psychat::credential::{append_history, mint_hnft, verify_zk_proof};
use psychat::error::ErrorCode;
use psychat::events::HNFTMinted;
use psychat::ledger::Ledger;
use psychat::listing::list_data;
use psychat::pubkey::Pubkey;
use psychat::state::HNFT;

fn user(byte: u8) -> Pubkey {
    Pubkey::new_from_array([byte; 32])
}

fn text(s: &str) -> String {
    s.to_string()
}

#[test]
fn verifier_needs_proof_and_data() {
    assert!(verify_zk_proof("p", "d"));
    assert!(!verify_zk_proof("", "d"));
    assert!(!verify_zk_proof("p", ""));
    assert!(!verify_zk_proof("", ""));
}

#[test]
fn create_fills_every_field() {
    let hnft = HNFT::create(user(1), text("data"), text("proof"), 2, 77).unwrap();
    assert_eq!(
        hnft,
        HNFT {
            owner: user(1),
            encrypted_data: text("data"),
            zk_proof: text("proof"),
            category: 2,
            mint_timestamp: 77,
            is_listed: false,
            is_soulbound: true,
            listing_price: 0,
        }
    );
}

#[test]
fn create_refuses_an_empty_proof_or_empty_data() {
    assert_eq!(HNFT::create(user(1), text("data"), text(""), 2, 77), Err(ErrorCode::InvalidZKProof));
    assert_eq!(HNFT::create(user(1), text(""), text("proof"), 2, 77), Err(ErrorCode::InvalidZKProof));
}

#[test]
fn authorize_accepts_the_owner_only() {
    let hnft = HNFT::create(user(1), text("data"), text("proof"), 2, 77).unwrap();
    assert_eq!(hnft.authorize(&user(1)), Ok(()));
    assert_eq!(hnft.authorize(&user(2)), Err(ErrorCode::Unauthorized));
}

#[test]
fn append_replaces_locator_and_tag_only() {
    let mut hnft = HNFT::create(user(1), text("data"), text("proof"), 2, 77).unwrap();
    assert_eq!(hnft.append(&user(1), text("walrus://x"), text("trait")), Ok(()));
    assert_eq!(
        hnft,
        HNFT {
            owner: user(1),
            encrypted_data: text("walrus://x"),
            zk_proof: text("trait"),
            category: 2,
            mint_timestamp: 77,
            is_listed: false,
            is_soulbound: true,
            listing_price: 0,
        }
    );
}

#[test]
fn append_by_a_stranger_changes_nothing() {
    let mut hnft = HNFT::create(user(1), text("data"), text("proof"), 2, 77).unwrap();
    let before = hnft.clone();
    assert_eq!(hnft.append(&user(2), text("u"), text("t")), Err(ErrorCode::Unauthorized));
    assert_eq!(hnft, before);
}

#[test]
fn mint_files_the_credential_at_the_derived_address() {
    let mut ledger = Ledger::new();
    let ctx = MintHNFT::resolve(user(1)).unwrap();
    assert_eq!(ctx.user(), user(1));
    let event = mint_hnft(&mut ledger, &ctx, text("data"), text("proof"), 3, 5).unwrap();
    assert_eq!(event, HNFTMinted { owner: user(1), hnft: ctx.hnft(), category: 3, timestamp: 5 });
    let stored = ledger.hnft(&ctx.hnft()).unwrap();
    assert_eq!(stored.owner, user(1));
    assert_eq!(stored.encrypted_data, "data");
    assert_eq!(stored.zk_proof, "proof");
    assert_eq!(stored.category, 3);
    assert_eq!(stored.mint_timestamp, 5);
    assert!(!stored.is_listed);
    assert!(stored.is_soulbound);
    assert_eq!(stored.listing_price, 0);
    assert!(ledger.hnft(&user(1)).is_none());
}

#[test]
fn mint_with_an_invalid_proof_files_nothing() {
    let mut ledger = Ledger::new();
    let ctx = MintHNFT::resolve(user(1)).unwrap();
    assert_eq!(
        mint_hnft(&mut ledger, &ctx, text("data"), text(""), 3, 5),
        Err(ErrorCode::InvalidZKProof)
    );
    assert_eq!(
        mint_hnft(&mut ledger, &ctx, text(""), text("proof"), 3, 5),
        Err(ErrorCode::InvalidZKProof)
    );
    assert!(ledger.hnft(&ctx.hnft()).is_none());
    assert!(mint_hnft(&mut ledger, &ctx, text("data"), text("proof"), 3, 5).is_ok());
}

#[test]
fn second_mint_for_an_owner_fails() {
    let mut ledger = Ledger::new();
    let ctx = MintHNFT::resolve(user(1)).unwrap();
    mint_hnft(&mut ledger, &ctx, text("data"), text("proof"), 3, 5).unwrap();
    let again = MintHNFT::resolve(user(1)).unwrap();
    assert_eq!(again.hnft(), ctx.hnft());
    assert_eq!(
        mint_hnft(&mut ledger, &again, text("other"), text("proof2"), 4, 6),
        Err(ErrorCode::HNFTAlreadyExists)
    );
    assert_eq!(
        mint_hnft(&mut ledger, &again, text(""), text(""), 4, 6),
        Err(ErrorCode::HNFTAlreadyExists)
    );
    let stored = ledger.hnft(&ctx.hnft()).unwrap();
    assert_eq!(stored.encrypted_data, "data");
    assert_eq!(stored.category, 3);
}

#[test]
fn second_mint_fails_after_other_requests() {
    let mut ledger = Ledger::new();
    let ctx = MintHNFT::resolve(user(1)).unwrap();
    mint_hnft(&mut ledger, &ctx, text("data"), text("proof"), 3, 5).unwrap();
    let list = ListData::resolve(user(1), ctx.hnft()).unwrap();
    list_data(&mut ledger, &list, 9, 1, text("d"), 6).unwrap();
    auto_compound(&mut ledger, &AutoCompound::resolve(user(1)), 5, user(9), 7).unwrap();
    let append = AppendHistory::resolve(user(1)).unwrap();
    append_history(&mut ledger, &append, text("u"), text("t"), text("x"), 8).unwrap();
    assert_eq!(
        mint_hnft(&mut ledger, &ctx, text("data"), text("proof"), 3, 9),
        Err(ErrorCode::HNFTAlreadyExists)
    );
}

#[test]
fn two_owners_have_two_credentials() {
    let mut ledger = Ledger::new();
    let one = MintHNFT::resolve(user(1)).unwrap();
    let two = MintHNFT::resolve(user(2)).unwrap();
    assert_ne!(one.hnft(), two.hnft());
    mint_hnft(&mut ledger, &one, text("a"), text("p"), 0, 1).unwrap();
    mint_hnft(&mut ledger, &two, text("b"), text("q"), 1, 2).unwrap();
    assert_eq!(ledger.hnft(&one.hnft()).unwrap().owner, user(1));
    assert_eq!(ledger.hnft(&two.hnft()).unwrap().owner, user(2));
}

#[test]
fn append_history_keeps_owner_category_and_soulbound() {
    let mut ledger = Ledger::new();
    let ctx = MintHNFT::resolve(user(1)).unwrap();
    mint_hnft(&mut ledger, &ctx, text("data"), text("proof"), 3, 5).unwrap();
    let list = ListData::resolve(user(1), ctx.hnft()).unwrap();
    list_data(&mut ledger, &list, 42, 1, text("d"), 6).unwrap();
    let listing_before = ledger.listing(&list.listing()).unwrap().clone();

    let append = AppendHistory::resolve(user(1)).unwrap();
    assert_eq!(append.hnft(), ctx.hnft());
    let event = append_history(&mut ledger, &append, text("walrus://x"), text("trait"), text("raw"), 9)
        .unwrap();
    assert_eq!(event, HNFTMinted { owner: user(1), hnft: ctx.hnft(), category: 3, timestamp: 9 });
    assert_eq!(
        ledger.hnft(&ctx.hnft()).unwrap(),
        &HNFT {
            owner: user(1),
            encrypted_data: text("walrus://x"),
            zk_proof: text("trait"),
            category: 3,
            mint_timestamp: 5,
            is_listed: true,
            is_soulbound: true,
            listing_price: 42,
        }
    );
    assert_eq!(ledger.listing(&list.listing()).unwrap(), &listing_before);
}

#[test]
fn append_history_without_a_credential_is_unauthorized() {
    let mut ledger = Ledger::new();
    let append = AppendHistory::resolve(user(1)).unwrap();
    assert_eq!(
        append_history(&mut ledger, &append, text("u"), text("t"), text("x"), 9),
        Err(ErrorCode::Unauthorized)
    );
    assert!(ledger.hnft(&append.hnft()).is_none());
}

#[test]
fn append_history_accepts_empty_locator_and_tag() {
    let mut ledger = Ledger::new();
    let ctx = MintHNFT::resolve(user(1)).unwrap();
    mint_hnft(&mut ledger, &ctx, text("data"), text("proof"), 3, 5).unwrap();
    let append = AppendHistory::resolve(user(1)).unwrap();
    append_history(&mut ledger, &append, text(""), text(""), text(""), 9).unwrap();
    assert_eq!(ledger.hnft(&ctx.hnft()).unwrap().encrypted_data, "");
    assert_eq!(ledger.hnft(&ctx.hnft()).unwrap().zk_proof, "");
}
