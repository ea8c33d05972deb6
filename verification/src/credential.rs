//! Minting the identity credential of a user, and replacing its contents.

use vstd::prelude::*;
use crate::accounts::{AppendHistory, AppendHistoryView, MintHNFT, MintHNFTView};
use crate::address::hnft_slot;
use crate::error::ErrorCode;
use crate::events::{HNFTMinted, HNFTMintedView};
use crate::ledger::{Ledger, LedgerView};
use crate::pubkey::Pubkey;
use crate::state::{HNFT, HNFTView};

verus! {

/// Whether the stand-in for the proof verifier accepts a proof for encrypted
/// data: it does when neither is empty.
pub open spec fn proof_accepted(zk_proof: Seq<char>, encrypted_data: Seq<char>) -> bool {
    zk_proof.len() > 0 && encrypted_data.len() > 0
}

/// The stand-in for the proof verifier.
pub fn verify_zk_proof(proof: &str, data: &str) -> (accepted: bool)
    ensures
        accepted == proof_accepted(proof@, data@),
{
    !proof.is_empty() && !data.is_empty()
}

/// A credential as it is created: soulbound, and not listed.
pub open spec fn created_credential(
    owner: Seq<u8>,
    encrypted_data: Seq<char>,
    zk_proof: Seq<char>,
    category: u8,
    now: i64,
) -> HNFTView {
    HNFTView {
        owner,
        encrypted_data,
        zk_proof,
        category,
        mint_timestamp: now,
        is_listed: false,
        is_soulbound: true,
        listing_price: 0,
    }
}

/// A credential once its contents were replaced: the locator stands where
/// the encrypted data stood and the tag where the proof stood. Nothing else
/// changes.
pub open spec fn appended_credential(hnft: HNFTView, uri: Seq<char>, trait_id: Seq<char>) -> HNFTView {
    HNFTView { encrypted_data: uri, zk_proof: trait_id, ..hnft }
}

impl HNFT {
    /// The credential of `owner`, unless the proof is not accepted for the
    /// encrypted data.
    pub fn create(
        owner: Pubkey,
        encrypted_data: String,
        zk_proof: String,
        category: u8,
        now: i64,
    ) -> (result: Result<HNFT, ErrorCode>)
        ensures
            match result {
                Ok(hnft) => {
                    &&& proof_accepted(zk_proof@, encrypted_data@)
                    &&& hnft@ == created_credential(
                        owner@,
                        encrypted_data@,
                        zk_proof@,
                        category,
                        now,
                    )
                },
                Err(code) => {
                    &&& !proof_accepted(zk_proof@, encrypted_data@)
                    &&& code == ErrorCode::InvalidZKProof
                },
            },
    {
        if !verify_zk_proof(zk_proof.as_str(), encrypted_data.as_str()) {
            return Err(ErrorCode::InvalidZKProof);
        }
        Ok(
            HNFT {
                owner,
                encrypted_data,
                zk_proof,
                category,
                mint_timestamp: now,
                is_listed: false,
                is_soulbound: true,
                listing_price: 0,
            },
        )
    }

    /// Accepts the caller if it owns the credential.
    pub fn authorize(&self, caller: &Pubkey) -> (result: Result<(), ErrorCode>)
        ensures
            match result {
                Ok(_) => self@.owner == caller@,
                Err(code) => self@.owner != caller@ && code == ErrorCode::Unauthorized,
            },
    {
        if self.owner.same(caller) {
            Ok(())
        } else {
            Err(ErrorCode::Unauthorized)
        }
    }

    /// Replaces the data locator and the proof tag, if the caller owns the
    /// credential.
    pub fn append(&mut self, caller: &Pubkey, uri: String, trait_id: String) -> (result: Result<
        (),
        ErrorCode,
    >)
        ensures
            match result {
                Ok(_) => {
                    &&& old(self)@.owner == caller@
                    &&& final(self)@ == appended_credential(old(self)@, uri@, trait_id@)
                },
                Err(code) => {
                    &&& old(self)@.owner != caller@
                    &&& code == ErrorCode::Unauthorized
                    &&& final(self)@ == old(self)@
                },
            },
    {
        match self.authorize(caller) {
            Ok(_) => {
                self.encrypted_data = uri;
                self.zk_proof = trait_id;
                Ok(())
            },
            Err(code) => Err(code),
        }
    }
}

impl HNFTMinted {
    /// The notification for the credential at an address.
    pub fn of(hnft_key: Pubkey, hnft: &HNFT, now: i64) -> (event: HNFTMinted)
        ensures
            event@ == credential_event(hnft_key@, hnft@, now),
    {
        HNFTMinted { owner: hnft.owner, hnft: hnft_key, category: hnft.category, timestamp: now }
    }
}

/// The notification for a credential at an address.
pub open spec fn credential_event(hnft_key: Seq<u8>, hnft: HNFTView, now: i64) -> HNFTMintedView {
    HNFTMintedView { owner: hnft.owner, hnft: hnft_key, category: hnft.category, timestamp: now }
}

/// Why a request to mint a credential is refused, if it is: the user has a
/// credential already; or the proof is not accepted for the encrypted data.
pub open spec fn mint_hnft_refusal(
    pre: LedgerView,
    ctx: MintHNFTView,
    encrypted_data: Seq<char>,
    zk_proof: Seq<char>,
) -> Option<ErrorCode> {
    if pre.hnfts.dom().contains(ctx.hnft) {
        Some(ErrorCode::HNFTAlreadyExists)
    } else if !proof_accepted(zk_proof, encrypted_data) {
        Some(ErrorCode::InvalidZKProof)
    } else {
        None
    }
}

/// The credential that a request mints.
pub open spec fn minted_credential(
    ctx: MintHNFTView,
    encrypted_data: Seq<char>,
    zk_proof: Seq<char>,
    category: u8,
    now: i64,
) -> HNFTView {
    created_credential(ctx.user, encrypted_data, zk_proof, category, now)
}

/// The ledger after a credential was minted.
pub open spec fn with_credential(
    pre: LedgerView,
    ctx: MintHNFTView,
    encrypted_data: Seq<char>,
    zk_proof: Seq<char>,
    category: u8,
    now: i64,
) -> LedgerView {
    LedgerView {
        hnfts: pre.hnfts.insert(
            ctx.hnft,
            minted_credential(ctx, encrypted_data, zk_proof, category, now),
        ),
        ..pre
    }
}

/// The notification of a minted credential.
pub open spec fn mint_hnft_event(ctx: MintHNFTView, category: u8, now: i64) -> HNFTMintedView {
    HNFTMintedView { owner: ctx.user, hnft: ctx.hnft, category, timestamp: now }
}

/// Replacing the credential at an address by one with the same owner, the
/// same listing state and the soulbound mark, or filing such a credential
/// that is not listed under a free address, keeps a consistent ledger
/// consistent.
pub proof fn lemma_credential_filed_consistent(pre: LedgerView, address: Seq<u8>, hnft: HNFTView)
    requires
        pre.consistent(),
        hnft_slot(hnft.owner) == Some(address),
        hnft.is_soulbound,
        pre.hnfts.dom().contains(address) ==> {
            &&& pre.hnfts[address].owner == hnft.owner
            &&& pre.hnfts[address].is_listed == hnft.is_listed
            &&& pre.hnfts[address].listing_price == hnft.listing_price
        },
        !pre.hnfts.dom().contains(address) ==> !hnft.is_listed,
    ensures
        (LedgerView { hnfts: pre.hnfts.insert(address, hnft), ..pre }).consistent(),
{
    let post = LedgerView { hnfts: pre.hnfts.insert(address, hnft), ..pre };
    assert forall|l: Seq<u8>| post.bids_on(l) == pre.bids_on(l) by {
        assert(post.bids_on(l) =~= pre.bids_on(l));
    }
}

/// Mints the soulbound credential of the caller from encrypted data and the
/// privacy proof that goes with it. A user has at most one credential: the
/// request is refused when one stands at the address derived from the user.
pub fn mint_hnft(
    ledger: &mut Ledger,
    ctx: &MintHNFT,
    encrypted_data: String,
    zk_proof: String,
    category: u8,
    now: i64,
) -> (result: Result<HNFTMinted, ErrorCode>)
    ensures
        final(ledger)@.consistent(),
        match result {
            Ok(event) => {
                &&& mint_hnft_refusal(old(ledger)@, ctx@, encrypted_data@, zk_proof@) is None
                &&& final(ledger)@ == with_credential(
                    old(ledger)@,
                    ctx@,
                    encrypted_data@,
                    zk_proof@,
                    category,
                    now,
                )
                &&& event@ == mint_hnft_event(ctx@, category, now)
            },
            Err(code) => {
                &&& mint_hnft_refusal(old(ledger)@, ctx@, encrypted_data@, zk_proof@) == Some(code)
                &&& final(ledger)@ == old(ledger)@
            },
        },
{
    let user = ctx.user();
    let hnft_key = ctx.hnft();
    if ledger.hnft(&hnft_key).is_some() {
        return Err(ErrorCode::HNFTAlreadyExists);
    }
    match HNFT::create(user, encrypted_data, zk_proof, category, now) {
        Err(code) => Err(code),
        Ok(hnft) => {
            let event = HNFTMinted::of(hnft_key, &hnft, now);
            let mut store = ledger.open();
            proof {
                lemma_credential_filed_consistent(store@, ctx@.hnft, hnft@);
            }
            store.hnfts.insert(hnft_key, hnft);
            ledger.close(store);
            Ok(event)
        },
    }
}

/// Why a request to replace the contents of a credential is refused, if it
/// is: the caller does not own a credential at the address.
pub open spec fn append_history_refusal(pre: LedgerView, ctx: AppendHistoryView) -> Option<
    ErrorCode,
> {
    if !pre.hnfts.dom().contains(ctx.hnft) || pre.hnfts[ctx.hnft].owner != ctx.user {
        Some(ErrorCode::Unauthorized)
    } else {
        None
    }
}

/// The ledger after the contents of a credential were replaced.
pub open spec fn with_history(
    pre: LedgerView,
    ctx: AppendHistoryView,
    uri: Seq<char>,
    trait_id: Seq<char>,
) -> LedgerView {
    LedgerView {
        hnfts: pre.hnfts.insert(ctx.hnft, appended_credential(pre.hnfts[ctx.hnft], uri, trait_id)),
        ..pre
    }
}

/// The notification of replaced contents: that of minting, for the same
/// credential.
pub open spec fn append_history_event(pre: LedgerView, ctx: AppendHistoryView, now: i64) -> HNFTMintedView {
    credential_event(ctx.hnft, pre.hnfts[ctx.hnft], now)
}

/// Replaces the data locator and the proof tag of the credential of the
/// caller. Earlier contents are not kept: the notifications are the history.
pub fn append_history(
    ledger: &mut Ledger,
    ctx: &AppendHistory,
    uri: String,
    trait_id: String,
    _trait_data: String,
    now: i64,
) -> (result: Result<HNFTMinted, ErrorCode>)
    ensures
        final(ledger)@.consistent(),
        match result {
            Ok(event) => {
                &&& append_history_refusal(old(ledger)@, ctx@) is None
                &&& final(ledger)@ == with_history(old(ledger)@, ctx@, uri@, trait_id@)
                &&& event@ == append_history_event(old(ledger)@, ctx@, now)
            },
            Err(code) => {
                &&& append_history_refusal(old(ledger)@, ctx@) == Some(code)
                &&& final(ledger)@ == old(ledger)@
            },
        },
{
    let user = ctx.user();
    let hnft_key = ctx.hnft();
    match ledger.hnft(&hnft_key) {
        None => {
            return Err(ErrorCode::Unauthorized);
        },
        Some(hnft) => {
            if let Err(code) = hnft.authorize(&user) {
                return Err(code);
            }
        },
    }
    let mut store = ledger.open();
    let ghost pre = store@;
    let mut hnft = store.hnfts.take(&hnft_key).unwrap();
    hnft.append(&user, uri, trait_id).unwrap();
    let event = HNFTMinted::of(hnft_key, &hnft, now);
    proof {
        lemma_credential_filed_consistent(pre, ctx@.hnft, hnft@);
    }
    store.hnfts.insert(hnft_key, hnft);
    proof {
        assert(store@.hnfts =~= with_history(pre, ctx@, uri@, trait_id@).hnfts);
    }
    ledger.close(store);
    Ok(event)
}

} // verus!
