use std::str::FromStr;

use psychat::address::{
    bid_address, check_id, dataset_address, derive_address, hnft_address, id, listing_address,
};
use psychat::pubkey::Pubkey;

fn key(byte: u8) -> Pubkey {
    Pubkey::new_from_array([byte; 32])
}

fn outside(key: &Pubkey) -> anchor_lang::prelude::Pubkey {
    anchor_lang::prelude::Pubkey::new_from_array(key.to_bytes())
}

fn program() -> anchor_lang::prelude::Pubkey {
    anchor_lang::prelude::Pubkey::from_str("DK9t6EFKWMZr1FwQxuuXwRe2GJ75MuqQ7qdeqKYiqCA6").unwrap()
}

#[test]
fn program_id_is_the_declared_one() {
    assert_eq!(id().to_bytes(), program().to_bytes());
    assert_eq!(id().to_bytes()[0], 182);
    assert_eq!(id().to_bytes()[31], 139);
}

#[test]
fn check_id_accepts_only_the_program_id() {
    assert!(check_id(&id()));
    assert!(!check_id(&key(0)));
    let mut bytes = id().to_bytes();
    bytes[31] ^= 1;
    assert!(!check_id(&Pubkey::new_from_array(bytes)));
}

#[test]
fn pubkey_round_trips_its_bytes() {
    let mut bytes = [0u8; 32];
    for (i, b) in bytes.iter_mut().enumerate() {
        *b = i as u8;
    }
    let k = Pubkey::new_from_array(bytes);
    assert_eq!(k.to_bytes(), bytes);
    assert_eq!(k.to_vec(), bytes.to_vec());
}

#[test]
fn pubkey_equality_is_by_bytes() {
    let a = key(1);
    let mut bytes = [1u8; 32];
    assert!(a.same(&Pubkey::new_from_array(bytes)));
    assert_eq!(a, Pubkey::new_from_array(bytes));
    bytes[31] = 2;
    assert!(!a.same(&Pubkey::new_from_array(bytes)));
    assert_ne!(a, Pubkey::new_from_array(bytes));
    bytes[31] = 1;
    bytes[0] = 0;
    assert!(!a.same(&Pubkey::new_from_array(bytes)));
}

#[test]
fn hnft_address_is_the_program_address_of_the_owner() {
    let owner = key(1);
    let (expected, _) = anchor_lang::prelude::Pubkey::find_program_address(
        &[b"hnft", outside(&owner).as_ref()],
        &program(),
    );
    let found = hnft_address(&owner).unwrap();
    assert_eq!(found.to_bytes(), expected.to_bytes());
    assert_ne!(found, owner);
}

#[test]
fn listing_address_is_the_program_address_of_the_credential() {
    let hnft = key(9);
    let (expected, _) = anchor_lang::prelude::Pubkey::find_program_address(
        &[b"listing", outside(&hnft).as_ref()],
        &program(),
    );
    let found = listing_address(&hnft).unwrap();
    assert_eq!(found.to_bytes(), expected.to_bytes());
    assert_ne!(found, hnft);
}

#[test]
fn bid_address_is_the_program_address_of_listing_and_bidder() {
    let listing = key(3);
    let bidder = key(4);
    let (expected, _) = anchor_lang::prelude::Pubkey::find_program_address(
        &[b"bid", outside(&listing).as_ref(), outside(&bidder).as_ref()],
        &program(),
    );
    let found = bid_address(&listing, &bidder).unwrap();
    assert_eq!(found.to_bytes(), expected.to_bytes());
    assert_ne!(bid_address(&bidder, &listing).unwrap(), found);
}

#[test]
fn dataset_address_is_the_program_address_of_the_credential() {
    let hnft = key(9);
    let (expected, _) = anchor_lang::prelude::Pubkey::find_program_address(
        &[b"dataset", outside(&hnft).as_ref()],
        &program(),
    );
    let found = dataset_address(&hnft).unwrap();
    assert_eq!(found.to_bytes(), expected.to_bytes());
    assert_ne!(found, listing_address(&hnft).unwrap());
}

#[test]
fn derive_is_a_function_of_the_seeds() {
    let seeds = vec![b"hnft".to_vec(), vec![1u8; 32]];
    let first = derive_address(&seeds).unwrap();
    let second = derive_address(&seeds).unwrap();
    assert_eq!(first, second);
    assert_eq!(first, hnft_address(&key(1)).unwrap());
    let other = derive_address(&vec![b"hnft".to_vec(), vec![2u8; 32]]).unwrap();
    assert_ne!(first, other);
}

#[test]
fn derive_refuses_a_seed_that_is_too_long() {
    assert_eq!(derive_address(&vec![vec![0u8; 33]]), None);
    assert!(derive_address(&vec![vec![0u8; 32]]).is_some());
}

#[test]
fn derive_refuses_too_many_seeds() {
    let sixteen: Vec<Vec<u8>> = (0..16u8).map(|i| vec![i]).collect();
    assert_eq!(derive_address(&sixteen), None);
    let fifteen: Vec<Vec<u8>> = (0..15u8).map(|i| vec![i]).collect();
    assert!(derive_address(&fifteen).is_some());
}
