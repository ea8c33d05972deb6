use psychat::accounts::{ListData, MintHNFT, PlaceBid};
use psychat::bid::place_bid;
use psychat::credential::mint_hnft;
use psychat::error::ErrorCode;
use psychat::ledger::Ledger;
use psychat::listing::list_data;
use psychat::pubkey::Pubkey;

fn key(byte: u8) -> Pubkey {
    Pubkey::new_from_array([byte; 32])
}

#[test]
fn mint_list_bid_and_list_again() {
    let a = key(0xA1);
    let b = key(0xB2);
    let mut ledger = Ledger::new();

    let mint = MintHNFT::resolve(a).unwrap();
    let minted = mint_hnft(&mut ledger, &mint, "cipher".to_string(), "proof".to_string(), 1, 10)
        .unwrap();
    assert_eq!(minted.owner, a);
    assert_eq!(minted.hnft, mint.hnft());
    assert_eq!(minted.category, 1);
    assert_eq!(minted.timestamp, 10);
    assert!(!ledger.hnft(&mint.hnft()).unwrap().is_listed);

    let list = ListData::resolve(a, mint.hnft()).unwrap();
    let opened = list_data(&mut ledger, &list, 100, 0, "notes".to_string(), 20).unwrap();
    assert_eq!(opened.listing, list.listing());
    assert_eq!(opened.price, 100);
    assert_eq!(opened.currency, 0);
    assert!(ledger.hnft(&mint.hnft()).unwrap().is_listed);
    assert_eq!(ledger.hnft(&mint.hnft()).unwrap().listing_price, 100);
    assert!(ledger.listing(&list.listing()).unwrap().is_active);
    assert_eq!(ledger.listing(&list.listing()).unwrap().bid_count, 0);

    let bid = PlaceBid::resolve(b, list.listing()).unwrap();
    assert_eq!(place_bid(&mut ledger, &bid, 50, 30), Err(ErrorCode::BidTooLow));
    assert_eq!(ledger.listing(&list.listing()).unwrap().bid_count, 0);
    assert!(ledger.bid(&bid.bid()).is_none());

    let placed = place_bid(&mut ledger, &bid, 150, 31).unwrap();
    assert_eq!(placed.amount, 150);
    assert_eq!(placed.bidder, b);
    assert_eq!(ledger.listing(&list.listing()).unwrap().bid_count, 1);

    let again = ListData::resolve(a, mint.hnft()).unwrap();
    assert_eq!(
        list_data(&mut ledger, &again, 100, 0, "notes".to_string(), 40),
        Err(ErrorCode::AlreadyListed)
    );
}
