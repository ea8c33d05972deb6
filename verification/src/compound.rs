//! Recording compounding actions.

use vstd::prelude::*;
use crate::accounts::AutoCompound;
use crate::error::ErrorCode;
use crate::events::{AutoCompounded, AutoCompoundedView};
use crate::ledger::{Ledger, LedgerView};
use crate::pubkey::Pubkey;
use crate::state::{AutoCompoundRecord, AutoCompoundRecordView};

verus! {

/// The entry that a request adds to the log.
pub open spec fn compound_entry(user: Seq<u8>, amount: u64, yield_pool: Seq<u8>, now: i64) -> AutoCompoundRecordView {
    AutoCompoundRecordView { user, amount, yield_pool, timestamp: now }
}

/// The ledger after a compounding action was recorded: the log has one entry
/// more, at its end.
pub open spec fn with_compound(
    pre: LedgerView,
    user: Seq<u8>,
    amount: u64,
    yield_pool: Seq<u8>,
    now: i64,
) -> LedgerView {
    LedgerView { compounds: pre.compounds.push(compound_entry(user, amount, yield_pool, now)), ..pre }
}

/// The notification of a recorded compounding action.
pub open spec fn auto_compound_event(user: Seq<u8>, amount: u64, yield_pool: Seq<u8>, now: i64) -> AutoCompoundedView {
    AutoCompoundedView { user, amount, yield_pool, timestamp: now }
}

impl AutoCompoundRecord {
    /// The entry for a compounding action of `user`.
    pub fn record(user: Pubkey, amount: u64, yield_pool: Pubkey, now: i64) -> (entry:
        AutoCompoundRecord)
        ensures
            entry@ == compound_entry(user@, amount, yield_pool@, now),
    {
        AutoCompoundRecord { user, amount, yield_pool, timestamp: now }
    }
}

impl AutoCompounded {
    /// The notification for an entry of the log.
    pub fn of(entry: &AutoCompoundRecord) -> (event: AutoCompounded)
        ensures
            event@ == auto_compound_event(
                entry@.user,
                entry@.amount,
                entry@.yield_pool,
                entry@.timestamp,
            ),
    {
        AutoCompounded {
            user: entry.user,
            amount: entry.amount,
            yield_pool: entry.yield_pool,
            timestamp: entry.timestamp,
        }
    }
}

/// Recording a compounding action keeps a consistent ledger consistent.
pub proof fn lemma_with_compound_consistent(
    pre: LedgerView,
    user: Seq<u8>,
    amount: u64,
    yield_pool: Seq<u8>,
    now: i64,
)
    requires
        pre.consistent(),
    ensures
        with_compound(pre, user, amount, yield_pool, now).consistent(),
{
    let post = with_compound(pre, user, amount, yield_pool, now);
    assert forall|l: Seq<u8>| post.bids_on(l) == pre.bids_on(l) by {
        assert(post.bids_on(l) =~= pre.bids_on(l));
    }
}

/// Records that the caller compounds `amount` into a yield pool. The log
/// only grows, and the request is never refused. No funds move.
pub fn auto_compound(
    ledger: &mut Ledger,
    ctx: &AutoCompound,
    amount: u64,
    yield_pool: Pubkey,
    now: i64,
) -> (result: Result<AutoCompounded, ErrorCode>)
    ensures
        final(ledger)@.consistent(),
        final(ledger)@ == with_compound(old(ledger)@, ctx.user@, amount, yield_pool@, now),
        result is Ok,
        result.unwrap()@ == auto_compound_event(ctx.user@, amount, yield_pool@, now),
{
    let mut store = ledger.open();
    let ghost pre = store@;
    let entry = AutoCompoundRecord::record(ctx.user, amount, yield_pool, now);
    let event = AutoCompounded::of(&entry);
    store.compounds.push(entry);
    proof {
        let post = with_compound(pre, ctx.user@, amount, yield_pool@, now);
        assert(store@.compounds =~= post.compounds);
        lemma_with_compound_consistent(pre, ctx.user@, amount, yield_pool@, now);
    }
    ledger.close(store);
    Ok(event)
}

} // verus!
