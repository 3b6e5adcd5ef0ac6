use vstd::prelude::*;

use crate::execution::{execute_outcome, marked_executed};
use crate::identity::Identity;
use crate::lifecycle::{add_outcome, cancel_outcome};
use crate::state::{
    all_executed, elapsed, executions_kept, is_first_pending, stage_rank, status_advances, Timelock,
    TimelockError, Transaction, TransactionBatch, TransactionBatchStatus,
};

verus! {

/// A batch's stage only moves forward. Every operation on a batch leaves its
/// stage as it was or moves it one step along `Created, Sealed, Enqueued`,
/// then `Cancelled` or `Executed`; so over two operations the stage never
/// returns to an earlier one, and no step skips a stage.
pub proof fn lemma_status_only_advances(
    a: TransactionBatchStatus,
    b: TransactionBatchStatus,
    c: TransactionBatchStatus,
)
    requires
        status_advances(a, b),
        status_advances(b, c),
    ensures
        stage_rank(a) <= stage_rank(b) <= stage_rank(c),
        a != b ==> stage_rank(b) == stage_rank(a) + 1,
        status_advances(b, a) ==> a == b,
        stage_rank(c) == stage_rank(a) ==> a == c,
{
}

/// Adding a transaction is refused as not modifiable, whoever calls, unless
/// the batch is `Created`; for the batch's authority it succeeds exactly when
/// the batch is `Created`.
pub proof fn lemma_add_only_while_created(batch: TransactionBatch, signer: Identity)
    ensures
        batch.status != TransactionBatchStatus::Created ==> add_outcome(batch, signer) == Err::<
            (),
            TimelockError,
        >(TimelockError::CannotAddTransactions),
        add_outcome(batch, signer) is Ok ==> batch.status == TransactionBatchStatus::Created,
        signer@ == batch.transaction_batch_authority@ ==> (add_outcome(batch, signer) is Ok <==> batch.status
            == TransactionBatchStatus::Created),
{
}

/// A veto succeeds only on an enqueued batch whose delay has not yet elapsed;
/// from the administrator, on a batch of this timelock, it succeeds exactly
/// then.
pub proof fn lemma_veto_window(
    timelock: Timelock,
    timelock_key: Identity,
    batch: TransactionBatch,
    signer: Identity,
    now: u64,
)
    ensures
        cancel_outcome(timelock, timelock_key, batch, signer, now) is Ok ==> {
            &&& batch.status == TransactionBatchStatus::Enqueued
            &&& elapsed(now, batch.enqueued_slot) < timelock.delay_in_slots as int
        },
        signer@ == timelock.admin@ && batch.timelock@ == timelock_key@ ==> (cancel_outcome(
            timelock,
            timelock_key,
            batch,
            signer,
            now,
        ) is Ok <==> batch.status == TransactionBatchStatus::Enqueued && elapsed(
            now,
            batch.enqueued_slot,
        ) < timelock.delay_in_slots as int),
{
}

/// An execution call on a batch that is not yet `Executed` goes ahead
/// exactly when the batch is enqueued, belongs to this timelock, and strictly
/// more than the delay has elapsed. On an `Executed` batch the call succeeds
/// without changing anything (see `lemma_drained_batch_invokes_nothing`).
pub proof fn lemma_execution_window(
    timelock: Timelock,
    timelock_key: Identity,
    batch: TransactionBatch,
    now: u64,
)
    ensures
        batch.status != TransactionBatchStatus::Executed && execute_outcome(
            timelock,
            timelock_key,
            batch,
            now,
        ) is Ok ==> {
            &&& batch.status == TransactionBatchStatus::Enqueued
            &&& elapsed(now, batch.enqueued_slot) > timelock.delay_in_slots as int
        },
        batch.status != TransactionBatchStatus::Executed && batch.timelock@ == timelock_key@ ==> (
        execute_outcome(timelock, timelock_key, batch, now) is Ok <==> batch.status
            == TransactionBatchStatus::Enqueued && elapsed(now, batch.enqueued_slot)
            > timelock.delay_in_slots as int),
{
}

/// At the slot where exactly the delay has elapsed, a veto is refused
/// whoever calls, and so is an execution call on a batch not yet `Executed`.
pub proof fn lemma_boundary_slot_allows_neither(
    timelock: Timelock,
    timelock_key: Identity,
    batch: TransactionBatch,
    signer: Identity,
    now: u64,
)
    requires
        elapsed(now, batch.enqueued_slot) == timelock.delay_in_slots as int,
    ensures
        cancel_outcome(timelock, timelock_key, batch, signer, now) is Err,
        batch.status != TransactionBatchStatus::Executed ==> execute_outcome(
            timelock,
            timelock_key,
            batch,
            now,
        ) is Err,
{
}

/// No transaction runs twice. Once the first pending transaction `i` is
/// recorded as run, no later state of the batch in which recorded runs are
/// kept offers `i` as the next transaction to invoke.
pub proof fn lemma_no_double_invocation(before: Seq<Transaction>, i: int, later: Seq<Transaction>)
    requires
        is_first_pending(before, i),
        executions_kept(before.update(i, marked_executed(before[i])), later),
    ensures
        executions_kept(before, before.update(i, marked_executed(before[i]))),
        later[i].did_execute,
        !is_first_pending(later, i),
{
    let after = before.update(i, marked_executed(before[i]));
    assert(after[i].did_execute);
    assert forall|k: int| 0 <= k < before.len() && #[trigger] before[k].did_execute implies after[k].did_execute by {
        if k != i {
            assert(after[k] == before[k]);
        }
    }
}

/// Executing a batch whose transactions have all run is a no-op. No
/// transaction is pending, so nothing is invoked; and a batch of this
/// timelock that is already `Executed` is answered without error, whatever
/// the slot.
pub proof fn lemma_drained_batch_invokes_nothing(
    timelock: Timelock,
    timelock_key: Identity,
    batch: TransactionBatch,
    now: u64,
    i: int,
)
    requires
        all_executed(batch.transactions@),
    ensures
        !is_first_pending(batch.transactions@, i),
        batch.status == TransactionBatchStatus::Executed && batch.timelock@ == timelock_key@
            ==> execute_outcome(timelock, timelock_key, batch, now) is Ok,
{
    if 0 <= i < batch.transactions@.len() {
        assert(batch.transactions@[i].did_execute);
    }
}

} // verus!
