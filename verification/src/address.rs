//! Deterministic record addresses.
//!
//! Every record but a compounding entry stands at an address derived from
//! the identifiers it is bound to: a credential from its owner, a listing and
//! a dataset from their credential, a bid from its listing and its bidder.
//! Two records bound to the same identifiers would stand at the same address,
//! so only the first of them can be created.

use vstd::prelude::*;
use crate::pubkey::Pubkey;

verus! {

/// The program-derived address and bump seed that belong to a list of seeds
/// under a program id, if there is one.
pub uninterp spec fn program_address(seeds: Seq<Seq<u8>>, program_id: Seq<u8>) -> Option<(Seq<u8>, u8)>;

/// The byte strings that a list of seed buffers holds.
pub open spec fn seed_bytes(seeds: Seq<Vec<u8>>) -> Seq<Seq<u8>> {
    Seq::new(seeds.len(), |i: int| seeds[i]@)
}

/// The bytes of an address that may be missing.
pub open spec fn key_view(key: Option<Pubkey>) -> Option<Seq<u8>> {
    match key {
        Some(k) => Some(k@),
        None => None,
    }
}

/// Calls `Pubkey::try_find_program_address` of `anchor_lang`, which searches
/// the bump seeds from 255 downwards for the first address off the curve. The
/// result is a function of the seeds and the program id alone; the contract
/// gives it the name `program_address` and claims nothing else about it.
#[verifier::external_body]
fn find_program_address(seeds: &Vec<Vec<u8>>, program_id: &Pubkey) -> (found: Option<(Pubkey, u8)>)
    ensures
        match found {
            Some((key, bump)) => program_address(seed_bytes(seeds@), program_id@) == Some((key@, bump)),
            None => program_address(seed_bytes(seeds@), program_id@) is None,
        },
{
    let parts: Vec<&[u8]> = seeds.iter().map(|seed| seed.as_slice()).collect();
    let program = anchor_lang::prelude::Pubkey::new_from_array(program_id.bytes);
    match anchor_lang::prelude::Pubkey::try_find_program_address(&parts, &program) {
        Some((key, bump)) => Some((Pubkey { bytes: key.to_bytes() }, bump)),
        None => None,
    }
}

/// The bytes of the id of this program.
pub open spec fn program_id_bytes() -> Seq<u8> {
    seq![
        182u8, 242, 189, 67, 26, 72, 43, 214, 59, 82, 207, 198, 173, 89, 215, 34,
        53, 11, 245, 167, 4, 84, 244, 53, 122, 103, 45, 209, 167, 8, 229, 139,
    ]
}

/// The id of this program: `DK9t6EFKWMZr1FwQxuuXwRe2GJ75MuqQ7qdeqKYiqCA6`.
pub fn id() -> (key: Pubkey)
    ensures
        key@ == program_id_bytes(),
{
    let key = Pubkey {
        bytes: [
            182, 242, 189, 67, 26, 72, 43, 214, 59, 82, 207, 198, 173, 89, 215, 34,
            53, 11, 245, 167, 4, 84, 244, 53, 122, 103, 45, 209, 167, 8, 229, 139,
        ],
    };
    assert(key@ =~= program_id_bytes());
    key
}

/// Whether an address is the id of this program.
pub fn check_id(key: &Pubkey) -> (is_id: bool)
    ensures
        is_id == (key@ == program_id_bytes()),
{
    key.same(&id())
}

/// The seed `hnft`, which marks the address of a credential.
pub open spec fn hnft_tag() -> Seq<u8> {
    seq![104u8, 110, 102, 116]
}

/// The seed `listing`, which marks the address of a listing.
pub open spec fn listing_tag() -> Seq<u8> {
    seq![108u8, 105, 115, 116, 105, 110, 103]
}

/// The seed `bid`, which marks the address of a bid.
pub open spec fn bid_tag() -> Seq<u8> {
    seq![98u8, 105, 100]
}

/// The seed `dataset`, which marks the address of a dataset.
pub open spec fn dataset_tag() -> Seq<u8> {
    seq![100u8, 97, 116, 97, 115, 101, 116]
}

/// The address that a list of seeds selects under this program, if any.
pub open spec fn derived(seeds: Seq<Seq<u8>>) -> Option<Seq<u8>> {
    match program_address(seeds, program_id_bytes()) {
        Some((address, _)) => Some(address),
        None => None,
    }
}

/// The address of the credential of an owner.
pub open spec fn hnft_slot(owner: Seq<u8>) -> Option<Seq<u8>> {
    derived(seq![hnft_tag(), owner])
}

/// The address of the listing of a credential.
pub open spec fn listing_slot(hnft: Seq<u8>) -> Option<Seq<u8>> {
    derived(seq![listing_tag(), hnft])
}

/// The address of the bid of a bidder on a listing.
pub open spec fn bid_slot(listing: Seq<u8>, bidder: Seq<u8>) -> Option<Seq<u8>> {
    derived(seq![bid_tag(), listing, bidder])
}

/// The address of the dataset of a credential.
pub open spec fn dataset_slot(hnft: Seq<u8>) -> Option<Seq<u8>> {
    derived(seq![dataset_tag(), hnft])
}

/// The address that the seeds select under this program, if any.
pub fn derive_address(seeds: &Vec<Vec<u8>>) -> (found: Option<Pubkey>)
    ensures
        key_view(found) == derived(seed_bytes(seeds@)),
{
    let program = id();
    match find_program_address(seeds, &program) {
        Some((address, _)) => Some(address),
        None => None,
    }
}

/// The address of the credential of an owner, if one can be derived.
pub fn hnft_address(owner: &Pubkey) -> (found: Option<Pubkey>)
    ensures
        key_view(found) == hnft_slot(owner@),
{
    let tag: Vec<u8> = vec![104u8, 110, 102, 116];
    let seeds: Vec<Vec<u8>> = vec![tag, owner.to_vec()];
    assert(seed_bytes(seeds@) =~= seq![hnft_tag(), owner@]) by {
        assert(tag@ =~= hnft_tag());
    }
    derive_address(&seeds)
}

/// The address of the listing of a credential, if one can be derived.
pub fn listing_address(hnft: &Pubkey) -> (found: Option<Pubkey>)
    ensures
        key_view(found) == listing_slot(hnft@),
{
    let tag: Vec<u8> = vec![108u8, 105, 115, 116, 105, 110, 103];
    let seeds: Vec<Vec<u8>> = vec![tag, hnft.to_vec()];
    assert(seed_bytes(seeds@) =~= seq![listing_tag(), hnft@]) by {
        assert(tag@ =~= listing_tag());
    }
    derive_address(&seeds)
}

/// The address of the bid of a bidder on a listing, if one can be derived.
pub fn bid_address(listing: &Pubkey, bidder: &Pubkey) -> (found: Option<Pubkey>)
    ensures
        key_view(found) == bid_slot(listing@, bidder@),
{
    let tag: Vec<u8> = vec![98u8, 105, 100];
    let seeds: Vec<Vec<u8>> = vec![tag, listing.to_vec(), bidder.to_vec()];
    assert(seed_bytes(seeds@) =~= seq![bid_tag(), listing@, bidder@]) by {
        assert(tag@ =~= bid_tag());
    }
    derive_address(&seeds)
}

/// The address of the dataset of a credential, if one can be derived.
pub fn dataset_address(hnft: &Pubkey) -> (found: Option<Pubkey>)
    ensures
        key_view(found) == dataset_slot(hnft@),
{
    let tag: Vec<u8> = vec![100u8, 97, 116, 97, 115, 101, 116];
    let seeds: Vec<Vec<u8>> = vec![tag, hnft.to_vec()];
    assert(seed_bytes(seeds@) =~= seq![dataset_tag(), hnft@]) by {
        assert(tag@ =~= dataset_tag());
    }
    derive_address(&seeds)
}

} // verus!
