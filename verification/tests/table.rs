use psychat::pubkey::Pubkey;
use psychat::state::Bid;
use psychat::table::Table;

fn at(byte: u8) -> Pubkey {
    Pubkey::new_from_array([byte; 32])
}

fn bid(amount: u64) -> Bid {
    Bid { listing: at(0), bidder: at(1), amount, timestamp: 0, is_active: true }
}

#[test]
fn new_table_is_empty() {
    let table: Table<Bid> = Table::new();
    assert_eq!(table.len(), 0);
    assert!(!table.contains_key(&at(1)));
    assert!(table.get(&at(1)).is_none());
}

#[test]
fn insert_files_only_the_first_record() {
    let mut table: Table<Bid> = Table::new();
    assert!(table.insert(at(1), bid(10)));
    assert!(table.insert(at(2), bid(20)));
    assert!(!table.insert(at(1), bid(30)));
    assert_eq!(table.len(), 2);
    assert_eq!(table.get(&at(1)).unwrap().amount, 10);
    assert_eq!(table.get(&at(2)).unwrap().amount, 20);
    assert!(table.contains_key(&at(2)));
    assert!(!table.contains_key(&at(3)));
}

#[test]
fn take_removes_the_record() {
    let mut table: Table<Bid> = Table::new();
    table.insert(at(1), bid(10));
    table.insert(at(2), bid(20));
    table.insert(at(3), bid(30));
    assert_eq!(table.take(&at(2)), Some(bid(20)));
    assert_eq!(table.take(&at(2)), None);
    assert_eq!(table.len(), 2);
    assert_eq!(table.get(&at(1)).unwrap().amount, 10);
    assert_eq!(table.get(&at(3)).unwrap().amount, 30);
    assert!(table.insert(at(2), bid(21)));
    assert_eq!(table.get(&at(2)).unwrap().amount, 21);
}

#[test]
fn new_ledger_holds_nothing() {
    let ledger = psychat::ledger::Ledger::new();
    assert!(ledger.hnft(&at(1)).is_none());
    assert!(ledger.listing(&at(1)).is_none());
    assert!(ledger.bid(&at(1)).is_none());
    assert!(ledger.dataset(&at(1)).is_none());
    assert!(ledger.compounds().is_empty());
}
