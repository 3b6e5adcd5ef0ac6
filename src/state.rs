use vstd::prelude::*;

use crate::identity::Identity;

verus! {

/// The authority record that every batch refers to: who administers it, who may
/// later be given a say on batches, and how long an approved batch must wait.
pub struct Timelock {
    pub id: u64,
    pub pda_bump: u8,
    /// Semi-privileged accounts meant to enqueue and veto batches with a soft
    /// commitment. No transition consults them yet.
    pub enqueuers: Vec<Identity>,
    pub max_enqueuers: u16,
    /// Fully privileged account: changes the delay and the administrator,
    /// approves and vetoes batches.
    pub admin: Identity,
    pub delay_in_slots: u64,
}

impl Timelock {
    /// The enqueuer list never outgrows the capacity fixed at creation.
    pub open spec fn wf(&self) -> bool {
        self.enqueuers@.len() <= self.max_enqueuers as nat
    }

    /// Everything but the delay is the same in `self` and `o`.
    pub open spec fn same_but_delay(&self, o: &Timelock) -> bool {
        &&& self.id == o.id
        &&& self.pda_bump == o.pda_bump
        &&& self.enqueuers == o.enqueuers
        &&& self.max_enqueuers == o.max_enqueuers
        &&& self.admin == o.admin
    }

    /// Everything but the administrator is the same in `self` and `o`.
    pub open spec fn same_but_admin(&self, o: &Timelock) -> bool {
        &&& self.id == o.id
        &&& self.pda_bump == o.pda_bump
        &&& self.enqueuers == o.enqueuers
        &&& self.max_enqueuers == o.max_enqueuers
        &&& self.delay_in_slots == o.delay_in_slots
    }
}

/// The stages of a batch. `Created` is initial; `Cancelled` and `Executed` are
/// terminal.
#[derive(Clone, Copy, Debug, PartialEq, Eq, Structural)]
pub enum TransactionBatchStatus {
    Created,
    Sealed,
    Enqueued,
    Cancelled,
    Executed,
}

/// One argument account of a delegated call.
#[derive(Clone, Copy, Debug)]
pub struct TransactionAccount {
    pub pubkey: Identity,
    pub is_signer: bool,
    pub is_writable: bool,
}

/// One delegated call held in a batch, run at most once.
#[derive(Clone, Debug)]
pub struct Transaction {
    pub program_id: Identity,
    pub accounts: Vec<TransactionAccount>,
    pub data: Vec<u8>,
    pub did_execute: bool,
}

/// An ordered list of delegated calls and the stage it has reached.
pub struct TransactionBatch {
    pub status: TransactionBatchStatus,
    pub is_hard_commitment: bool,
    pub transactions: Vec<Transaction>,
    pub timelock: Identity,
    pub enqueued_slot: u64,
    pub transaction_batch_authority: Identity,
}

impl TransactionBatch {
    /// Everything but the transaction list is the same in `self` and `o`.
    pub open spec fn same_header(&self, o: &TransactionBatch) -> bool {
        &&& self.status == o.status
        &&& self.is_hard_commitment == o.is_hard_commitment
        &&& self.timelock == o.timelock
        &&& self.enqueued_slot == o.enqueued_slot
        &&& self.transaction_batch_authority == o.transaction_batch_authority
    }

    /// Everything but the status and the approval slot is the same in `self`
    /// and `o`.
    pub open spec fn same_but_stage(&self, o: &TransactionBatch) -> bool {
        &&& self.is_hard_commitment == o.is_hard_commitment
        &&& self.transactions == o.transactions
        &&& self.timelock == o.timelock
        &&& self.transaction_batch_authority == o.transaction_batch_authority
    }
}

#[derive(Clone, Debug)]
pub struct CreateTimelockParams {
    pub max_enqueuers: u16,
    pub enqueuers: Vec<Identity>,
    pub admin: Identity,
    pub delay_in_slots: u64,
    pub timelock_id: u64,
}

#[derive(Clone, Copy, Debug)]
pub struct CreateTransactionBatchParams {
    pub transaction_batch_authority: Identity,
}

#[derive(Clone, Debug)]
pub struct AddTransactionParams {
    pub program_id: Identity,
    pub accounts: Vec<TransactionAccount>,
    pub data: Vec<u8>,
}

/// Why a requested operation was refused. A refused operation changes nothing.
#[derive(Clone, Copy, Debug, PartialEq, Eq, Structural)]
pub enum TimelockError {
    /// The batch is enqueued but its delay has not yet fully elapsed.
    NotReady,
    /// Transactions are only added while the batch is `Created`.
    CannotAddTransactions,
    /// A batch is only sealed while it is `Created`.
    CannotSealTransactionBatch,
    /// A batch is only enqueued once it is `Sealed`.
    CannotEnqueueTransactionBatch,
    /// A batch is only cancelled while it is `Enqueued`.
    CannotCancelTimelock,
    /// A batch is only cancelled before its delay has elapsed.
    CanOnlyCancelDuringTimelockPeriod,
    /// Transactions are only executed while the batch is `Enqueued`.
    CannotExecuteTransactions,
    /// More enqueuers were given than the declared capacity.
    InvalidCapacity,
    /// The caller is not the identity that the operation requires.
    Unauthorized,
    /// The batch belongs to another timelock.
    TimelockMismatch,
}

/// Every transaction of `txs` has run.
pub open spec fn all_executed(txs: Seq<Transaction>) -> bool {
    forall|i: int| 0 <= i < txs.len() ==> #[trigger] txs[i].did_execute
}

/// `i` is the first transaction of `txs` that has not run.
pub open spec fn is_first_pending(txs: Seq<Transaction>, i: int) -> bool {
    &&& 0 <= i < txs.len()
    &&& !txs[i].did_execute
    &&& forall|j: int| 0 <= j < i ==> #[trigger] txs[j].did_execute
}

/// Slots elapsed between approval and `now`, as a mathematical difference.
pub open spec fn elapsed(now: u64, enqueued_slot: u64) -> int {
    now as int - enqueued_slot as int
}

/// A veto is still possible at `now`: the delay has not yet elapsed.
pub open spec fn in_cancel_window(now: u64, enqueued_slot: u64, delay: u64) -> bool {
    elapsed(now, enqueued_slot) < delay as int
}

/// Execution is possible at `now`: strictly more than the delay has elapsed.
pub open spec fn past_delay(now: u64, enqueued_slot: u64, delay: u64) -> bool {
    elapsed(now, enqueued_slot) > delay as int
}

/// `b` is `a` or a stage that directly follows it.
pub open spec fn status_advances(a: TransactionBatchStatus, b: TransactionBatchStatus) -> bool {
    a == b || match a {
        TransactionBatchStatus::Created => b == TransactionBatchStatus::Sealed,
        TransactionBatchStatus::Sealed => b == TransactionBatchStatus::Enqueued,
        TransactionBatchStatus::Enqueued => b == TransactionBatchStatus::Cancelled || b
            == TransactionBatchStatus::Executed,
        _ => false,
    }
}

/// The position of a stage on the way from `Created` to a terminal stage.
pub open spec fn stage_rank(s: TransactionBatchStatus) -> int {
    match s {
        TransactionBatchStatus::Created => 0,
        TransactionBatchStatus::Sealed => 1,
        TransactionBatchStatus::Enqueued => 2,
        TransactionBatchStatus::Cancelled => 3,
        TransactionBatchStatus::Executed => 3,
    }
}

/// No transaction that had run is marked as not run in `after`, and the list
/// keeps its length.
pub open spec fn executions_kept(before: Seq<Transaction>, after: Seq<Transaction>) -> bool {
    &&& after.len() == before.len()
    &&& forall|i: int| 0 <= i < before.len() && #[trigger] before[i].did_execute ==> after[i].did_execute
}

} // verus!
