use timelock::execution::{
    complete_transaction_execution, execute_transaction_batch, AccountMeta, ExecutionStep,
    Instruction,
};
use timelock::identity::Identity;
use timelock::lifecycle::{
    add_transaction, cancel_transaction_batch, create_timelock, create_transaction_batch,
    delay_elapsed, enqueue_transaction_batch, seal_transaction_batch, set_authority,
    set_delay_in_slots, within_cancel_window,
};
use timelock::state::{
    AddTransactionParams, CreateTimelockParams, CreateTransactionBatchParams, Timelock,
    TimelockError, Transaction, TransactionAccount, TransactionBatch, TransactionBatchStatus,
};

fn id(n: u8) -> Identity {
    Identity::new([n; 32])
}

fn admin() -> Identity {
    id(1)
}

fn authority() -> Identity {
    id(2)
}

fn timelock_key() -> Identity {
    id(3)
}

fn timelock_signer() -> Identity {
    id(4)
}

fn new_timelock(delay: u64) -> Timelock {
    create_timelock(
        CreateTimelockParams {
            max_enqueuers: 2,
            enqueuers: vec![id(9)],
            admin: admin(),
            delay_in_slots: delay,
            timelock_id: 7,
        },
        254,
    )
    .unwrap()
}

fn op(program: u8, data: Vec<u8>) -> AddTransactionParams {
    AddTransactionParams {
        program_id: id(program),
        accounts: vec![
            TransactionAccount { pubkey: timelock_signer(), is_signer: false, is_writable: true },
            TransactionAccount { pubkey: id(8), is_signer: false, is_writable: false },
        ],
        data,
    }
}

/// A batch with two transactions, sealed and approved at slot 1000.
fn enqueued_batch(timelock: &Timelock) -> TransactionBatch {
    let mut batch = create_transaction_batch(
        timelock_key(),
        CreateTransactionBatchParams { transaction_batch_authority: authority() },
    );
    add_transaction(&mut batch, authority(), op(20, vec![1, 2, 3])).unwrap();
    add_transaction(&mut batch, authority(), op(21, vec![4])).unwrap();
    seal_transaction_batch(&mut batch, authority()).unwrap();
    enqueue_transaction_batch(timelock, timelock_key(), &mut batch, admin(), 1000).unwrap();
    batch
}

fn run_step(timelock: &Timelock, batch: &mut TransactionBatch, now: u64) -> Result<ExecutionStep, TimelockError> {
    let step = execute_transaction_batch(timelock, timelock_key(), batch, timelock_signer(), now)?;
    complete_transaction_execution(batch, &step);
    Ok(step)
}

#[test]
fn veto_inside_window_cancels_and_blocks_execution() {
    let timelock = new_timelock(100);
    let mut batch = enqueued_batch(&timelock);
    assert_eq!(batch.enqueued_slot, 1000);
    assert_eq!(cancel_transaction_batch(&timelock, timelock_key(), &mut batch, admin(), 1050), Ok(()));
    assert_eq!(batch.status, TransactionBatchStatus::Cancelled);
    assert_eq!(
        run_step(&timelock, &mut batch, 1200).err(),
        Some(TimelockError::CannotExecuteTransactions)
    );
    assert!(batch.transactions.iter().all(|t| !t.did_execute));
}

#[test]
fn execution_waits_past_delay_then_runs_one_per_call() {
    let timelock = new_timelock(100);
    let mut batch = enqueued_batch(&timelock);
    assert_eq!(run_step(&timelock, &mut batch, 1100).err(), Some(TimelockError::NotReady));
    assert_eq!(batch.status, TransactionBatchStatus::Enqueued);

    match run_step(&timelock, &mut batch, 1101).unwrap() {
        ExecutionStep::Invoke { index, .. } => assert_eq!(index, 0),
        ExecutionStep::Finish => panic!("expected an invocation"),
    }
    assert!(batch.transactions[0].did_execute);
    assert!(!batch.transactions[1].did_execute);
    assert_eq!(batch.status, TransactionBatchStatus::Enqueued);

    match run_step(&timelock, &mut batch, 1102).unwrap() {
        ExecutionStep::Invoke { index, .. } => assert_eq!(index, 1),
        ExecutionStep::Finish => panic!("expected an invocation"),
    }
    assert!(batch.transactions[1].did_execute);
    assert_eq!(batch.status, TransactionBatchStatus::Executed);
}

#[test]
fn add_after_seal_is_not_modifiable_for_any_caller() {
    let mut batch = create_transaction_batch(
        timelock_key(),
        CreateTransactionBatchParams { transaction_batch_authority: authority() },
    );
    seal_transaction_batch(&mut batch, authority()).unwrap();
    for caller in [authority(), admin(), id(77)] {
        assert_eq!(
            add_transaction(&mut batch, caller, op(20, vec![])),
            Err(TimelockError::CannotAddTransactions)
        );
    }
    assert_eq!(batch.transactions.len(), 0);
    assert_eq!(batch.status, TransactionBatchStatus::Sealed);
}

#[test]
fn veto_by_other_identity_is_unauthorized() {
    let timelock = new_timelock(100);
    let mut batch = enqueued_batch(&timelock);
    assert_eq!(
        cancel_transaction_batch(&timelock, timelock_key(), &mut batch, authority(), 1050),
        Err(TimelockError::Unauthorized)
    );
    assert_eq!(batch.status, TransactionBatchStatus::Enqueued);
}

#[test]
fn boundary_slot_allows_neither_veto_nor_execution() {
    let timelock = new_timelock(100);
    let mut batch = enqueued_batch(&timelock);
    assert_eq!(
        cancel_transaction_batch(&timelock, timelock_key(), &mut batch, admin(), 1100),
        Err(TimelockError::CanOnlyCancelDuringTimelockPeriod)
    );
    assert_eq!(run_step(&timelock, &mut batch, 1100).err(), Some(TimelockError::NotReady));
    assert_eq!(
        cancel_transaction_batch(&timelock, timelock_key(), &mut batch, admin(), 1099),
        Ok(())
    );
}

#[test]
fn window_arithmetic_does_not_wrap() {
    assert!(within_cancel_window(5, 10, 0));
    assert!(within_cancel_window(1099, 1000, 100));
    assert!(!within_cancel_window(1100, 1000, 100));
    assert!(!delay_elapsed(5, 10, 0));
    assert!(!delay_elapsed(1100, 1000, 100));
    assert!(delay_elapsed(1101, 1000, 100));
    assert!(delay_elapsed(u64::MAX, 0, u64::MAX - 1));
    assert!(!delay_elapsed(u64::MAX, 0, u64::MAX));
}

#[test]
fn zero_delay_executes_one_slot_after_approval() {
    let timelock = new_timelock(0);
    let mut batch = enqueued_batch(&timelock);
    assert_eq!(
        cancel_transaction_batch(&timelock, timelock_key(), &mut batch, admin(), 1000),
        Err(TimelockError::CanOnlyCancelDuringTimelockPeriod)
    );
    assert_eq!(run_step(&timelock, &mut batch, 1000).err(), Some(TimelockError::NotReady));
    assert!(run_step(&timelock, &mut batch, 1001).is_ok());
}

#[test]
fn drained_batch_is_left_unchanged() {
    let timelock = new_timelock(100);
    let mut batch = enqueued_batch(&timelock);
    run_step(&timelock, &mut batch, 1101).unwrap();
    run_step(&timelock, &mut batch, 1101).unwrap();
    assert_eq!(batch.status, TransactionBatchStatus::Executed);
    let slot_before = batch.enqueued_slot;
    assert!(matches!(run_step(&timelock, &mut batch, 1500), Ok(ExecutionStep::Finish)));
    assert!(matches!(run_step(&timelock, &mut batch, 1100), Ok(ExecutionStep::Finish)));
    assert!(batch.transactions.iter().all(|t| t.did_execute));
    assert_eq!(batch.transactions.len(), 2);
    assert_eq!(batch.status, TransactionBatchStatus::Executed);
    assert_eq!(batch.enqueued_slot, slot_before);
}

#[test]
fn empty_batch_finishes_without_invoking() {
    let timelock = new_timelock(10);
    let mut batch = create_transaction_batch(
        timelock_key(),
        CreateTransactionBatchParams { transaction_batch_authority: authority() },
    );
    seal_transaction_batch(&mut batch, authority()).unwrap();
    enqueue_transaction_batch(&timelock, timelock_key(), &mut batch, admin(), 50).unwrap();
    assert!(matches!(run_step(&timelock, &mut batch, 61), Ok(ExecutionStep::Finish)));
    assert_eq!(batch.status, TransactionBatchStatus::Executed);
}

#[test]
fn invocation_signs_only_for_the_timelock_signer() {
    let timelock = new_timelock(100);
    let batch = enqueued_batch(&timelock);
    let step = execute_transaction_batch(&timelock, timelock_key(), &batch, timelock_signer(), 1101)
        .unwrap();
    match step {
        ExecutionStep::Invoke { index, instruction } => {
            assert_eq!(index, 0);
            assert!(instruction.program_id == id(20));
            assert_eq!(instruction.data, vec![1, 2, 3]);
            assert_eq!(instruction.accounts.len(), 2);
            assert!(instruction.accounts[0].pubkey == timelock_signer());
            assert!(instruction.accounts[0].is_signer);
            assert!(instruction.accounts[0].is_writable);
            assert!(instruction.accounts[1].pubkey == id(8));
            assert!(!instruction.accounts[1].is_signer);
            assert!(!instruction.accounts[1].is_writable);
        },
        ExecutionStep::Finish => panic!("expected an invocation"),
    }
    assert!(!batch.transactions[0].did_execute);
}

#[test]
fn instruction_keeps_stored_flags_before_signing() {
    let tx = Transaction {
        program_id: id(5),
        accounts: vec![TransactionAccount { pubkey: id(6), is_signer: true, is_writable: false }],
        data: vec![9, 8],
        did_execute: false,
    };
    let mut ix = Instruction::from_transaction(&tx);
    assert!(ix.accounts[0].is_signer);
    assert!(!ix.accounts[0].is_writable);
    ix.sign_as(id(7));
    assert!(ix.accounts[0].is_signer);
    let meta = AccountMeta { pubkey: id(6), is_signer: false, is_writable: true };
    let back = TransactionAccount::from_account_meta(&meta);
    assert!(back.pubkey == id(6) && !back.is_signer && back.is_writable);
    let fwd = AccountMeta::from_transaction_account(&back);
    assert!(fwd.pubkey == id(6) && !fwd.is_signer && fwd.is_writable);
}

#[test]
fn create_refuses_too_many_enqueuers() {
    let r = create_timelock(
        CreateTimelockParams {
            max_enqueuers: 1,
            enqueuers: vec![id(9), id(10)],
            admin: admin(),
            delay_in_slots: 5,
            timelock_id: 1,
        },
        0,
    );
    assert_eq!(r.err(), Some(TimelockError::InvalidCapacity));
    let t = create_timelock(
        CreateTimelockParams {
            max_enqueuers: 0,
            enqueuers: vec![],
            admin: admin(),
            delay_in_slots: 5,
            timelock_id: 1,
        },
        3,
    )
    .unwrap();
    assert_eq!(t.enqueuers.len(), 0);
    assert_eq!(t.pda_bump, 3);
    assert_eq!(t.id, 1);
}

#[test]
fn only_admin_changes_delay_and_admin() {
    let mut timelock = new_timelock(100);
    assert_eq!(set_delay_in_slots(&mut timelock, id(50), 3), Err(TimelockError::Unauthorized));
    assert_eq!(timelock.delay_in_slots, 100);
    assert_eq!(set_delay_in_slots(&mut timelock, admin(), 3), Ok(()));
    assert_eq!(timelock.delay_in_slots, 3);
    assert_eq!(set_authority(&mut timelock, id(50), id(50)), Err(TimelockError::Unauthorized));
    assert_eq!(set_authority(&mut timelock, admin(), id(50)), Ok(()));
    assert!(timelock.admin == id(50));
    assert_eq!(set_delay_in_slots(&mut timelock, admin(), 4), Err(TimelockError::Unauthorized));
    assert_eq!(timelock.enqueuers.len(), 1);
    assert_eq!(timelock.max_enqueuers, 2);
}

#[test]
fn new_admin_governs_batches_already_in_flight() {
    let mut timelock = new_timelock(100);
    let mut batch = enqueued_batch(&timelock);
    set_authority(&mut timelock, admin(), id(60)).unwrap();
    assert_eq!(
        cancel_transaction_batch(&timelock, timelock_key(), &mut batch, admin(), 1010),
        Err(TimelockError::Unauthorized)
    );
    assert_eq!(cancel_transaction_batch(&timelock, timelock_key(), &mut batch, id(60), 1010), Ok(()));
}

#[test]
fn stage_errors_for_each_transition() {
    let timelock = new_timelock(100);
    let mut batch = create_transaction_batch(
        timelock_key(),
        CreateTransactionBatchParams { transaction_batch_authority: authority() },
    );
    assert_eq!(batch.status, TransactionBatchStatus::Created);
    assert_eq!(batch.enqueued_slot, 0);
    assert!(!batch.is_hard_commitment);
    assert_eq!(
        enqueue_transaction_batch(&timelock, timelock_key(), &mut batch, admin(), 5),
        Err(TimelockError::CannotEnqueueTransactionBatch)
    );
    assert_eq!(
        cancel_transaction_batch(&timelock, timelock_key(), &mut batch, admin(), 5),
        Err(TimelockError::CannotCancelTimelock)
    );
    assert_eq!(seal_transaction_batch(&mut batch, id(40)), Err(TimelockError::Unauthorized));
    assert_eq!(add_transaction(&mut batch, id(40), op(1, vec![])), Err(TimelockError::Unauthorized));
    seal_transaction_batch(&mut batch, authority()).unwrap();
    assert_eq!(
        seal_transaction_batch(&mut batch, authority()),
        Err(TimelockError::CannotSealTransactionBatch)
    );
    assert_eq!(
        enqueue_transaction_batch(&timelock, timelock_key(), &mut batch, id(40), 5),
        Err(TimelockError::Unauthorized)
    );
    assert_eq!(
        enqueue_transaction_batch(&timelock, id(41), &mut batch, admin(), 5),
        Err(TimelockError::TimelockMismatch)
    );
    assert_eq!(
        execute_transaction_batch(&timelock, id(41), &batch, timelock_signer(), 500).err(),
        Some(TimelockError::TimelockMismatch)
    );
    enqueue_transaction_batch(&timelock, timelock_key(), &mut batch, admin(), 5).unwrap();
    assert_eq!(
        enqueue_transaction_batch(&timelock, timelock_key(), &mut batch, admin(), 6),
        Err(TimelockError::CannotEnqueueTransactionBatch)
    );
    assert_eq!(batch.enqueued_slot, 5);
}
