use vstd::prelude::*;

use crate::identity::Identity;
use crate::state::{
    all_executed, executions_kept, is_first_pending, past_delay, status_advances, Timelock, TimelockError, Transaction,
    TransactionAccount, TransactionBatch, TransactionBatchStatus,
};
use crate::lifecycle::delay_elapsed;

verus! {

/// One argument account of a call as it is handed to the runtime.
#[derive(Clone, Copy, Debug)]
pub struct AccountMeta {
    pub pubkey: Identity,
    pub is_signer: bool,
    pub is_writable: bool,
}

/// A call as it is handed to the runtime: target, argument accounts, payload.
#[derive(Clone, Debug)]
pub struct Instruction {
    pub program_id: Identity,
    pub accounts: Vec<AccountMeta>,
    pub data: Vec<u8>,
}

/// What one execution call asks of the runtime.
#[derive(Clone, Debug)]
pub enum ExecutionStep {
    /// Invoke `instruction`, signed by the timelock, then record that the
    /// transaction at `index` ran.
    Invoke { index: usize, instruction: Instruction },
    /// Nothing is left to invoke; only the batch's stage is brought up to
    /// date, and a batch already `Executed` is left as it is.
    Finish,
}

/// The runtime form of `a`, with the signer flag forced on where the account
/// is `signer`, the timelock's own derived identity.
pub open spec fn signed_meta(a: TransactionAccount, signer: Identity) -> AccountMeta {
    AccountMeta {
        pubkey: a.pubkey,
        is_signer: a.is_signer || a.pubkey@ == signer@,
        is_writable: a.is_writable,
    }
}

/// `ix` is the call that `tx` describes, signed by `signer` where it appears.
pub open spec fn instruction_for(ix: Instruction, tx: Transaction, signer: Identity) -> bool {
    &&& ix.program_id == tx.program_id
    &&& ix.data@ == tx.data@
    &&& ix.accounts@.len() == tx.accounts@.len()
    &&& forall|i: int|
        0 <= i < tx.accounts@.len() ==> #[trigger] ix.accounts@[i] == signed_meta(
            tx.accounts@[i],
            signer,
        )
}

/// What `execute_transaction_batch` answers at slot `now`.
pub open spec fn execute_outcome(
    timelock: Timelock,
    timelock_key: Identity,
    batch: TransactionBatch,
    now: u64,
) -> Result<(), TimelockError> {
    if batch.timelock@ != timelock_key@ {
        Err(TimelockError::TimelockMismatch)
    } else if batch.status == TransactionBatchStatus::Executed {
        Ok(())
    } else if batch.status != TransactionBatchStatus::Enqueued {
        Err(TimelockError::CannotExecuteTransactions)
    } else if !past_delay(now, batch.enqueued_slot, timelock.delay_in_slots) {
        Err(TimelockError::NotReady)
    } else {
        Ok(())
    }
}

/// `t` with its executed flag set.
pub open spec fn marked_executed(t: Transaction) -> Transaction {
    Transaction { did_execute: true, ..t }
}

impl AccountMeta {
    pub fn from_transaction_account(a: &TransactionAccount) -> (r: AccountMeta)
        ensures
            r.pubkey == a.pubkey,
            r.is_signer == a.is_signer,
            r.is_writable == a.is_writable,
    {
        AccountMeta { pubkey: a.pubkey, is_signer: a.is_signer, is_writable: a.is_writable }
    }
}

impl TransactionAccount {
    pub fn from_account_meta(m: &AccountMeta) -> (r: TransactionAccount)
        ensures
            r.pubkey == m.pubkey,
            r.is_signer == m.is_signer,
            r.is_writable == m.is_writable,
    {
        TransactionAccount { pubkey: m.pubkey, is_signer: m.is_signer, is_writable: m.is_writable }
    }
}

impl Instruction {
    /// The call that `tx` describes, with each account's flags as stored.
    pub fn from_transaction(tx: &Transaction) -> (r: Instruction)
        ensures
            r.program_id == tx.program_id,
            r.data@ == tx.data@,
            r.accounts@.len() == tx.accounts@.len(),
            forall|i: int|
                0 <= i < tx.accounts@.len() ==> {
                    &&& (#[trigger] r.accounts@[i]).pubkey == tx.accounts@[i].pubkey
                    &&& r.accounts@[i].is_signer == tx.accounts@[i].is_signer
                    &&& r.accounts@[i].is_writable == tx.accounts@[i].is_writable
                },
    {
        let mut accounts: Vec<AccountMeta> = Vec::new();
        let mut i: usize = 0;
        while i < tx.accounts.len()
            invariant
                i <= tx.accounts@.len(),
                accounts@.len() == i,
                forall|j: int|
                    0 <= j < i ==> {
                        &&& (#[trigger] accounts@[j]).pubkey == tx.accounts@[j].pubkey
                        &&& accounts@[j].is_signer == tx.accounts@[j].is_signer
                        &&& accounts@[j].is_writable == tx.accounts@[j].is_writable
                    },
            decreases tx.accounts@.len() - i,
        {
            accounts.push(AccountMeta::from_transaction_account(&tx.accounts[i]));
            i = i + 1;
        }
        let mut data: Vec<u8> = Vec::new();
        let mut k: usize = 0;
        while k < tx.data.len()
            invariant
                k <= tx.data@.len(),
                data@ == tx.data@.subrange(0, k as int),
            decreases tx.data@.len() - k,
        {
            data.push(tx.data[k]);
            k = k + 1;
            proof {
                assert(data@ =~= tx.data@.subrange(0, k as int));
            }
        }
        proof {
            assert(data@ =~= tx.data@);
        }
        Instruction { program_id: tx.program_id, accounts, data }
    }

    /// Marks every account that is `signer` as a signer, and no other.
    pub fn sign_as(&mut self, signer: Identity)
        ensures
            final(self).program_id == old(self).program_id,
            final(self).data == old(self).data,
            final(self).accounts@.len() == old(self).accounts@.len(),
            forall|i: int|
                0 <= i < old(self).accounts@.len() ==> #[trigger] final(self).accounts@[i] == (
                AccountMeta {
                    pubkey: old(self).accounts@[i].pubkey,
                    is_signer: old(self).accounts@[i].is_signer || old(self).accounts@[i].pubkey@
                        == signer@,
                    is_writable: old(self).accounts@[i].is_writable,
                }),
    {
        let ghost start = self.accounts@;
        let mut i: usize = 0;
        while i < self.accounts.len()
            invariant
                self.program_id == old(self).program_id,
                self.data == old(self).data,
                start == old(self).accounts@,
                i <= self.accounts@.len(),
                self.accounts@.len() == start.len(),
                forall|j: int|
                    0 <= j < i ==> #[trigger] self.accounts@[j] == (AccountMeta {
                        pubkey: start[j].pubkey,
                        is_signer: start[j].is_signer || start[j].pubkey@ == signer@,
                        is_writable: start[j].is_writable,
                    }),
                forall|j: int| i <= j < start.len() ==> #[trigger] self.accounts@[j] == start[j],
            decreases self.accounts@.len() - i,
        {
            let a = self.accounts[i];
            if a.pubkey == signer {
                self.accounts.set(
                    i,
                    AccountMeta { pubkey: a.pubkey, is_signer: true, is_writable: a.is_writable },
                );
            }
            i = i + 1;
        }
    }
}

/// The first transaction that has not run, or `None` when all have.
pub fn first_pending(txs: &Vec<Transaction>) -> (r: Option<usize>)
    ensures
        match r {
            Some(i) => is_first_pending(txs@, i as int),
            None => all_executed(txs@),
        },
{
    let mut i: usize = 0;
    while i < txs.len()
        invariant
            i <= txs@.len(),
            forall|j: int| 0 <= j < i ==> #[trigger] txs@[j].did_execute,
        decreases txs@.len() - i,
    {
        if !txs[i].did_execute {
            return Some(i);
        }
        i = i + 1;
    }
    None
}

/// Whether every transaction has run.
pub fn all_transactions_executed(txs: &Vec<Transaction>) -> (r: bool)
    ensures
        r == all_executed(txs@),
{
    first_pending(txs).is_none()
}

/// Decides one execution call on `batch` at slot `now`: the delay must have
/// fully elapsed. On success it names the first transaction not yet run and
/// the call to make for it, with `timelock_signer` marked as a signer wherever
/// it appears; or, when every transaction has run, asks only to finish. A
/// batch that is already `Executed` is answered with `Finish` and no error:
/// calling again once all has run is a no-op.
/// Nothing is changed here: `complete_transaction_execution` records the
/// step once the runtime has made the call.
pub fn execute_transaction_batch(
    timelock: &Timelock,
    timelock_key: Identity,
    batch: &TransactionBatch,
    timelock_signer: Identity,
    now: u64,
) -> (r: Result<ExecutionStep, TimelockError>)
    ensures
        execute_outcome(*timelock, timelock_key, *batch, now) is Ok <==> r is Ok,
        r matches Err(e) ==> execute_outcome(*timelock, timelock_key, *batch, now) == Err::<
            (),
            TimelockError,
        >(e),
        r matches Ok(ExecutionStep::Invoke { index, instruction }) ==> {
            &&& is_first_pending(batch.transactions@, index as int)
            &&& instruction_for(instruction, batch.transactions@[index as int], timelock_signer)
        },
        r matches Ok(ExecutionStep::Finish) ==> all_executed(batch.transactions@) || batch.status
            == TransactionBatchStatus::Executed,
        batch.status == TransactionBatchStatus::Executed && batch.timelock@ == timelock_key@ ==> r
            matches Ok(ExecutionStep::Finish),
{
    if batch.timelock != timelock_key {
        return Err(TimelockError::TimelockMismatch);
    }
    if batch.status == TransactionBatchStatus::Executed {
        return Ok(ExecutionStep::Finish);
    }
    if batch.status != TransactionBatchStatus::Enqueued {
        return Err(TimelockError::CannotExecuteTransactions);
    }
    if !delay_elapsed(now, batch.enqueued_slot, timelock.delay_in_slots) {
        return Err(TimelockError::NotReady);
    }
    match first_pending(&batch.transactions) {
        Some(index) => {
            let mut instruction = Instruction::from_transaction(&batch.transactions[index]);
            instruction.sign_as(timelock_signer);
            Ok(ExecutionStep::Invoke { index, instruction })
        },
        None => Ok(ExecutionStep::Finish),
    }
}

/// Records a step that `execute_transaction_batch` gave for this batch, after
/// the runtime made its call: the invoked transaction is marked as run, and
/// the batch becomes `Executed` once every transaction has run. A batch
/// already `Executed` is left unchanged.
pub fn complete_transaction_execution(batch: &mut TransactionBatch, step: &ExecutionStep)
    requires
        old(batch).status == TransactionBatchStatus::Enqueued || (old(batch).status
            == TransactionBatchStatus::Executed && step matches ExecutionStep::Finish),
        step matches ExecutionStep::Invoke { index, .. } ==> index < old(batch).transactions@.len()
            && !old(batch).transactions@[index as int].did_execute,
    ensures
        step matches ExecutionStep::Invoke { index, .. } ==> final(batch).transactions@ == old(
            batch).transactions@.update(
            index as int,
            marked_executed(old(batch).transactions@[index as int]),
        ),
        step matches ExecutionStep::Finish ==> final(batch).transactions@ == old(batch).transactions@,
        old(batch).status == TransactionBatchStatus::Executed ==> *final(batch) == *old(batch),
        old(batch).status == TransactionBatchStatus::Enqueued ==> final(batch).status == (if all_executed(
            final(batch).transactions@,
        ) {
            TransactionBatchStatus::Executed
        } else {
            TransactionBatchStatus::Enqueued
        }),
        status_advances(old(batch).status, final(batch).status),
        executions_kept(old(batch).transactions@, final(batch).transactions@),
        final(batch).is_hard_commitment == old(batch).is_hard_commitment,
        final(batch).timelock == old(batch).timelock,
        final(batch).enqueued_slot == old(batch).enqueued_slot,
        final(batch).transaction_batch_authority == old(batch).transaction_batch_authority,
{
    if batch.status == TransactionBatchStatus::Executed {
        return;
    }
    if let ExecutionStep::Invoke { index, .. } = step {
        batch.transactions[*index].did_execute = true;
    }
    if all_transactions_executed(&batch.transactions) {
        batch.status = TransactionBatchStatus::Executed;
    }
}

} // verus!
