use vstd::prelude::*;

use crate::identity::Identity;
use crate::state::{
    in_cancel_window, past_delay, status_advances, CreateTimelockParams, CreateTransactionBatchParams,
    AddTransactionParams, Timelock, TimelockError, Transaction, TransactionBatch,
    TransactionBatchStatus,
};

verus! {

/// What `create_timelock` answers for `params`.
pub open spec fn create_outcome(params: CreateTimelockParams) -> Result<(), TimelockError> {
    if params.enqueuers@.len() > params.max_enqueuers as nat {
        Err(TimelockError::InvalidCapacity)
    } else {
        Ok(())
    }
}

/// What a change of the delay or of the administrator answers for `signer`.
pub open spec fn admin_outcome(timelock: Timelock, signer: Identity) -> Result<(), TimelockError> {
    if signer@ != timelock.admin@ {
        Err(TimelockError::Unauthorized)
    } else {
        Ok(())
    }
}

/// What `add_transaction` answers. The stage is checked before the caller, so
/// a frozen batch refuses everyone alike.
pub open spec fn add_outcome(batch: TransactionBatch, signer: Identity) -> Result<(), TimelockError> {
    if batch.status != TransactionBatchStatus::Created {
        Err(TimelockError::CannotAddTransactions)
    } else if signer@ != batch.transaction_batch_authority@ {
        Err(TimelockError::Unauthorized)
    } else {
        Ok(())
    }
}

/// What `seal_transaction_batch` answers.
pub open spec fn seal_outcome(batch: TransactionBatch, signer: Identity) -> Result<(), TimelockError> {
    if batch.status != TransactionBatchStatus::Created {
        Err(TimelockError::CannotSealTransactionBatch)
    } else if signer@ != batch.transaction_batch_authority@ {
        Err(TimelockError::Unauthorized)
    } else {
        Ok(())
    }
}

/// The administrator must sign, and the batch must belong to the timelock at
/// `timelock_key`.
pub open spec fn admin_link_outcome(
    timelock: Timelock,
    timelock_key: Identity,
    batch: TransactionBatch,
    signer: Identity,
) -> Result<(), TimelockError> {
    if signer@ != timelock.admin@ {
        Err(TimelockError::Unauthorized)
    } else if batch.timelock@ != timelock_key@ {
        Err(TimelockError::TimelockMismatch)
    } else {
        Ok(())
    }
}

/// What `enqueue_transaction_batch` answers.
pub open spec fn enqueue_outcome(
    timelock: Timelock,
    timelock_key: Identity,
    batch: TransactionBatch,
    signer: Identity,
) -> Result<(), TimelockError> {
    if admin_link_outcome(timelock, timelock_key, batch, signer) is Err {
        admin_link_outcome(timelock, timelock_key, batch, signer)
    } else if batch.status != TransactionBatchStatus::Sealed {
        Err(TimelockError::CannotEnqueueTransactionBatch)
    } else {
        Ok(())
    }
}

/// What `cancel_transaction_batch` answers at slot `now`.
pub open spec fn cancel_outcome(
    timelock: Timelock,
    timelock_key: Identity,
    batch: TransactionBatch,
    signer: Identity,
    now: u64,
) -> Result<(), TimelockError> {
    if admin_link_outcome(timelock, timelock_key, batch, signer) is Err {
        admin_link_outcome(timelock, timelock_key, batch, signer)
    } else if batch.status != TransactionBatchStatus::Enqueued {
        Err(TimelockError::CannotCancelTimelock)
    } else if !in_cancel_window(now, batch.enqueued_slot, timelock.delay_in_slots) {
        Err(TimelockError::CanOnlyCancelDuringTimelockPeriod)
    } else {
        Ok(())
    }
}

/// Whether `now` lies before the end of the cancellation window, computed
/// without wrapping.
pub fn within_cancel_window(now: u64, enqueued_slot: u64, delay: u64) -> (r: bool)
    ensures
        r == in_cancel_window(now, enqueued_slot, delay),
{
    now < enqueued_slot || now - enqueued_slot < delay
}

/// Whether strictly more than `delay` slots have passed since `enqueued_slot`,
/// computed without wrapping.
pub fn delay_elapsed(now: u64, enqueued_slot: u64, delay: u64) -> (r: bool)
    ensures
        r == past_delay(now, enqueued_slot, delay),
{
    now > enqueued_slot && now - enqueued_slot > delay
}

/// Makes a timelock record from `params`, refusing more enqueuers than the
/// declared capacity.
pub fn create_timelock(params: CreateTimelockParams, pda_bump: u8) -> (r: Result<
    Timelock,
    TimelockError,
>)
    ensures
        create_outcome(params) is Err ==> r == Err::<Timelock, TimelockError>(
            TimelockError::InvalidCapacity,
        ),
        create_outcome(params) is Ok ==> r is Ok,
        r matches Ok(t) ==> {
            &&& t.wf()
            &&& t.id == params.timelock_id
            &&& t.pda_bump == pda_bump
            &&& t.enqueuers == params.enqueuers
            &&& t.max_enqueuers == params.max_enqueuers
            &&& t.admin == params.admin
            &&& t.delay_in_slots == params.delay_in_slots
        },
{
    if params.enqueuers.len() > params.max_enqueuers as usize {
        return Err(TimelockError::InvalidCapacity);
    }
    let CreateTimelockParams { max_enqueuers, enqueuers, admin, delay_in_slots, timelock_id } =
        params;
    Ok(
        Timelock {
            id: timelock_id,
            pda_bump,
            enqueuers,
            max_enqueuers,
            admin,
            delay_in_slots,
        },
    )
}

/// Replaces the delay; only the administrator may.
pub fn set_delay_in_slots(timelock: &mut Timelock, signer: Identity, delay_in_slots: u64) -> (r:
    Result<(), TimelockError>)
    ensures
        r == admin_outcome(*old(timelock), signer),
        r is Err ==> *final(timelock) == *old(timelock),
        r is Ok ==> {
            &&& final(timelock).delay_in_slots == delay_in_slots
            &&& final(timelock).same_but_delay(old(timelock))
        },
        old(timelock).wf() ==> final(timelock).wf(),
{
    if signer != timelock.admin {
        return Err(TimelockError::Unauthorized);
    }
    timelock.delay_in_slots = delay_in_slots;
    Ok(())
}

/// Hands the timelock to a new administrator; only the current one may.
pub fn set_authority(timelock: &mut Timelock, signer: Identity, authority: Identity) -> (r: Result<
    (),
    TimelockError,
>)
    ensures
        r == admin_outcome(*old(timelock), signer),
        r is Err ==> *final(timelock) == *old(timelock),
        r is Ok ==> {
            &&& final(timelock).admin == authority
            &&& final(timelock).same_but_admin(old(timelock))
        },
        old(timelock).wf() ==> final(timelock).wf(),
{
    if signer != timelock.admin {
        return Err(TimelockError::Unauthorized);
    }
    timelock.admin = authority;
    Ok(())
}

/// Opens an empty batch against the timelock at `timelock_key`.
pub fn create_transaction_batch(timelock_key: Identity, params: CreateTransactionBatchParams) -> (r:
    TransactionBatch)
    ensures
        r.status == TransactionBatchStatus::Created,
        !r.is_hard_commitment,
        r.transactions@.len() == 0,
        r.timelock == timelock_key,
        r.enqueued_slot == 0,
        r.transaction_batch_authority == params.transaction_batch_authority,
{
    TransactionBatch {
        status: TransactionBatchStatus::Created,
        is_hard_commitment: false,
        transactions: Vec::new(),
        timelock: timelock_key,
        enqueued_slot: 0,
        transaction_batch_authority: params.transaction_batch_authority,
    }
}

/// Appends one not yet executed transaction to a batch that is still open.
pub fn add_transaction(
    batch: &mut TransactionBatch,
    signer: Identity,
    params: AddTransactionParams,
) -> (r: Result<(), TimelockError>)
    ensures
        r == add_outcome(*old(batch), signer),
        status_advances(old(batch).status, final(batch).status),
        r is Err ==> *final(batch) == *old(batch),
        r is Ok ==> {
            &&& final(batch).same_header(old(batch))
            &&& final(batch).transactions@ == old(batch).transactions@.push(
                (Transaction {
                    program_id: params.program_id,
                    accounts: params.accounts,
                    data: params.data,
                    did_execute: false,
                }),
            )
        },
{
    if batch.status != TransactionBatchStatus::Created {
        return Err(TimelockError::CannotAddTransactions);
    }
    if signer != batch.transaction_batch_authority {
        return Err(TimelockError::Unauthorized);
    }
    let AddTransactionParams { program_id, accounts, data } = params;
    batch.transactions.push(Transaction { program_id, accounts, data, did_execute: false });
    Ok(())
}

/// Freezes the transaction list of an open batch.
pub fn seal_transaction_batch(batch: &mut TransactionBatch, signer: Identity) -> (r: Result<
    (),
    TimelockError,
>)
    ensures
        r == seal_outcome(*old(batch), signer),
        status_advances(old(batch).status, final(batch).status),
        r is Err ==> *final(batch) == *old(batch),
        r is Ok ==> {
            &&& final(batch).status == TransactionBatchStatus::Sealed
            &&& final(batch).enqueued_slot == old(batch).enqueued_slot
            &&& final(batch).same_but_stage(old(batch))
        },
{
    if batch.status != TransactionBatchStatus::Created {
        return Err(TimelockError::CannotSealTransactionBatch);
    }
    if signer != batch.transaction_batch_authority {
        return Err(TimelockError::Unauthorized);
    }
    batch.status = TransactionBatchStatus::Sealed;
    Ok(())
}

/// Approves a sealed batch at slot `now`, which starts its delay.
pub fn enqueue_transaction_batch(
    timelock: &Timelock,
    timelock_key: Identity,
    batch: &mut TransactionBatch,
    signer: Identity,
    now: u64,
) -> (r: Result<(), TimelockError>)
    ensures
        r == enqueue_outcome(*timelock, timelock_key, *old(batch), signer),
        status_advances(old(batch).status, final(batch).status),
        r is Err ==> *final(batch) == *old(batch),
        r is Ok ==> {
            &&& final(batch).status == TransactionBatchStatus::Enqueued
            &&& final(batch).enqueued_slot == now
            &&& final(batch).same_but_stage(old(batch))
        },
{
    if signer != timelock.admin {
        return Err(TimelockError::Unauthorized);
    }
    if batch.timelock != timelock_key {
        return Err(TimelockError::TimelockMismatch);
    }
    if batch.status != TransactionBatchStatus::Sealed {
        return Err(TimelockError::CannotEnqueueTransactionBatch);
    }
    batch.status = TransactionBatchStatus::Enqueued;
    batch.enqueued_slot = now;
    Ok(())
}

/// Vetoes an enqueued batch while its delay is still running.
pub fn cancel_transaction_batch(
    timelock: &Timelock,
    timelock_key: Identity,
    batch: &mut TransactionBatch,
    signer: Identity,
    now: u64,
) -> (r: Result<(), TimelockError>)
    ensures
        r == cancel_outcome(*timelock, timelock_key, *old(batch), signer, now),
        status_advances(old(batch).status, final(batch).status),
        r is Err ==> *final(batch) == *old(batch),
        r is Ok ==> {
            &&& final(batch).status == TransactionBatchStatus::Cancelled
            &&& final(batch).enqueued_slot == old(batch).enqueued_slot
            &&& final(batch).same_but_stage(old(batch))
        },
{
    if signer != timelock.admin {
        return Err(TimelockError::Unauthorized);
    }
    if batch.timelock != timelock_key {
        return Err(TimelockError::TimelockMismatch);
    }
    if batch.status != TransactionBatchStatus::Enqueued {
        return Err(TimelockError::CannotCancelTimelock);
    }
    if !within_cancel_window(now, batch.enqueued_slot, timelock.delay_in_slots) {
        return Err(TimelockError::CanOnlyCancelDuringTimelockPeriod);
    }
    batch.status = TransactionBatchStatus::Cancelled;
    Ok(())
}

} // verus!
