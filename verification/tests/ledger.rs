use kraken_demo::amount::Amount;
use kraken_demo::error::CliError;
use kraken_demo::job_queue::{Account, AccountStates};
use kraken_demo::types::{Transaction, TransactionType};
use std::collections::HashMap;

type Log = HashMap<u32, Vec<u8>>;

fn dec(units: i64, scale: u32) -> Amount {
    Amount::new(units, scale).expect("failed")
}

fn deposit(client: u16, tx: u32, amount: Amount) -> Transaction {
    Transaction { tx_type: TransactionType::Deposit, client, tx, amount: Some(amount) }
}

fn withdraw(client: u16, tx: u32, amount: Amount) -> Transaction {
    Transaction { tx_type: TransactionType::Withdrawal, client, tx, amount: Some(amount) }
}

fn dispute(client: u16, tx: u32) -> Transaction {
    Transaction { tx_type: TransactionType::Dispute, client, tx, amount: None }
}

fn resolve(client: u16, tx: u32) -> Transaction {
    Transaction { tx_type: TransactionType::Resolve, client, tx, amount: None }
}

fn chargeback(client: u16, tx: u32) -> Transaction {
    Transaction { tx_type: TransactionType::ChargeBack, client, tx, amount: None }
}

/// Submits one transaction the way a driver does: looks the id up in the
/// log, hands over what it found, and writes back what it is given.
fn run(states: &mut AccountStates, log: &mut Log, tx: Transaction) -> Result<(), CliError> {
    let id = tx.tx;
    let stored = match tx.tx_type {
        TransactionType::Deposit | TransactionType::Withdrawal => None,
        _ => log.get(&id).cloned(),
    };
    if let Some(bytes) = states.submit(tx, stored)? {
        log.insert(id, bytes);
    }
    Ok(())
}

fn only(accounts: &[Account]) -> Account {
    assert_eq!(accounts.len(), 1);
    accounts[0]
}

fn parts(a: Amount) -> (u32, u32, u32, bool, u32) {
    a.parts()
}

#[test]
fn basic() {
    let mut states = AccountStates::new();
    let mut log = Log::new();
    run(&mut states, &mut log, deposit(1, 1, dec(1000, 1))).expect("failed");
    run(&mut states, &mut log, withdraw(1, 2, dec(500, 1))).expect("failed");

    let accounts = states.finish();
    let account = accounts.first().expect("failed");

    assert_eq!(account.available(), dec(500, 1));
    assert_eq!(account.total(), dec(500, 1));
}

#[test]
fn dispute_flow() {
    let mut states = AccountStates::new();
    let mut log = Log::new();
    run(&mut states, &mut log, deposit(1, 1, dec(1000, 1))).expect("failed");
    run(&mut states, &mut log, dispute(1, 1)).expect("failed");
    run(&mut states, &mut log, resolve(1, 1)).expect("failed");

    let accounts = states.finish();
    let account = accounts.first().expect("failed");

    assert_eq!(account.available(), dec(1000, 1));
    assert_eq!(account.held(), dec(0, 1));
}

#[test]
fn locked_account_rejects_withdraw() {
    let mut states = AccountStates::new();
    let mut log = Log::new();
    run(&mut states, &mut log, deposit(1, 1, dec(1000, 1))).expect("failed");
    run(&mut states, &mut log, dispute(1, 1)).expect("failed");
    run(&mut states, &mut log, chargeback(1, 1)).expect("failed");
    run(&mut states, &mut log, withdraw(1, 2, dec(500, 1))).expect("failed");

    let accounts = states.finish();
    let account = accounts.first().expect("failed");
    assert_eq!(account.available(), dec(1000, 1));
    assert_eq!(account.total(), dec(1000, 1));
    assert!(account.locked());
}

#[test]
fn insufficient_funds_withdraw() {
    let mut states = AccountStates::new();
    let mut log = Log::new();
    run(&mut states, &mut log, deposit(1, 1, dec(1000, 1))).expect("failed");
    run(&mut states, &mut log, withdraw(1, 2, dec(1500, 1))).expect("failed");

    let accounts = states.finish();
    let account = accounts.first().expect("failed");
    assert_eq!(account.available(), dec(1000, 1)); // balance unchanged
    assert_eq!(account.total(), dec(1000, 1));
}

#[test]
fn single_deposit_opens_an_account() {
    let mut states = AccountStates::new();
    let mut log = Log::new();
    run(&mut states, &mut log, deposit(1, 1, dec(1000, 1))).expect("failed");

    let account = only(&states.finish());
    assert_eq!(account.client(), 1);
    assert_eq!(account.available(), dec(1000, 1));
    assert_eq!(account.held(), dec(0, 0));
    assert_eq!(account.total(), dec(1000, 1));
    assert!(!account.locked());
    // Adding to a zero balance keeps the deposit's own digits.
    assert_eq!(parts(account.available()), (1000, 0, 0, false, 1));
    assert_eq!(parts(account.total()), (1000, 0, 0, false, 1));
    assert_eq!(parts(account.held()), (0, 0, 0, false, 1));
}

#[test]
fn deposits_add_up_exactly() {
    let mut states = AccountStates::new();
    let mut log = Log::new();
    run(&mut states, &mut log, deposit(7, 1, dec(15, 1))).expect("failed");
    run(&mut states, &mut log, deposit(7, 2, dec(2_0375, 4))).expect("failed");

    let account = only(&states.finish());
    // 1.5 + 2.0375 = 3.5375
    assert_eq!(parts(account.available()), (3_5375, 0, 0, false, 4));
    assert_eq!(parts(account.total()), (3_5375, 0, 0, false, 4));
}

#[test]
fn withdrawal_subtracts_exactly() {
    let mut states = AccountStates::new();
    let mut log = Log::new();
    run(&mut states, &mut log, deposit(7, 1, dec(1000, 1))).expect("failed");
    run(&mut states, &mut log, withdraw(7, 2, dec(2_5001, 4))).expect("failed");

    let account = only(&states.finish());
    // 100.0 - 2.5001 = 97.4999
    assert_eq!(parts(account.available()), (97_4999, 0, 0, false, 4));
    assert_eq!(parts(account.total()), (97_4999, 0, 0, false, 4));
}

#[test]
fn withdrawal_of_the_whole_balance_succeeds() {
    let mut states = AccountStates::new();
    let mut log = Log::new();
    run(&mut states, &mut log, deposit(1, 1, dec(1000, 1))).expect("failed");
    run(&mut states, &mut log, withdraw(1, 2, dec(100, 0))).expect("failed");

    let account = only(&states.finish());
    assert_eq!(account.available(), dec(0, 0));
    assert_eq!(account.total(), dec(0, 0));
}

#[test]
fn deposits_keep_total_equal_to_available() {
    let mut states = AccountStates::new();
    let mut log = Log::new();
    let amounts = [dec(1, 4), dec(0, 0), dec(123_456, 3), dec(7, 0), dec(0, 4)];
    let mut tx = 1;
    for client in [3u16, 9, 3, 3, 12, 9] {
        for amount in amounts {
            run(&mut states, &mut log, deposit(client, tx, amount)).expect("failed");
            tx += 1;
        }
    }
    let accounts = states.finish();
    assert_eq!(accounts.len(), 3);
    for account in accounts {
        assert_eq!(account.available(), account.total());
        assert_eq!(parts(account.held()), (0, 0, 0, false, 1));
        assert!(!account.locked());
    }
}

#[test]
fn dispute_holds_without_reducing_available() {
    let mut states = AccountStates::new();
    let mut log = Log::new();
    run(&mut states, &mut log, deposit(1, 1, dec(1000, 1))).expect("failed");
    run(&mut states, &mut log, dispute(1, 1)).expect("failed");

    let account = only(&states.finish());
    assert_eq!(account.available(), dec(1000, 1));
    assert_eq!(account.held(), dec(1000, 1));
    assert_eq!(account.total(), dec(2000, 1));
    // 100.0 * 1.0 carries two fractional digits.
    assert_eq!(parts(account.held()), (10000, 0, 0, false, 2));
    assert!(!account.locked());
}

#[test]
fn dispute_of_a_withdrawal_holds_a_negative_amount() {
    let mut states = AccountStates::new();
    let mut log = Log::new();
    run(&mut states, &mut log, deposit(1, 1, dec(1000, 1))).expect("failed");
    run(&mut states, &mut log, withdraw(1, 2, dec(300, 1))).expect("failed");
    run(&mut states, &mut log, dispute(1, 2)).expect("failed");

    let account = only(&states.finish());
    assert_eq!(account.available(), dec(700, 1));
    assert_eq!(account.held(), dec(-300, 1));
    assert_eq!(account.total(), dec(400, 1));
}

#[test]
fn second_dispute_changes_nothing() {
    let mut once = AccountStates::new();
    let mut once_log = Log::new();
    run(&mut once, &mut once_log, deposit(1, 1, dec(1000, 1))).expect("failed");
    run(&mut once, &mut once_log, dispute(1, 1)).expect("failed");

    let mut twice = AccountStates::new();
    let mut twice_log = Log::new();
    run(&mut twice, &mut twice_log, deposit(1, 1, dec(1000, 1))).expect("failed");
    run(&mut twice, &mut twice_log, dispute(1, 1)).expect("failed");
    let stored = twice_log.get(&1).cloned();
    let written = twice.submit(dispute(1, 1), stored).expect("failed");
    assert!(written.is_none());

    assert_eq!(once_log, twice_log);
    let a = only(&once.finish());
    let b = only(&twice.finish());
    assert_eq!(parts(a.available()), parts(b.available()));
    assert_eq!(parts(a.held()), parts(b.held()));
    assert_eq!(parts(a.total()), parts(b.total()));
    assert_eq!(a.locked(), b.locked());
    assert_eq!(a.held(), dec(1000, 1));
}

#[test]
fn resolve_without_dispute_is_ignored() {
    let mut states = AccountStates::new();
    let mut log = Log::new();
    run(&mut states, &mut log, deposit(1, 1, dec(1000, 1))).expect("failed");
    let before = log.clone();
    let stored = log.get(&1).cloned();
    assert!(states.submit(resolve(1, 1), stored).expect("failed").is_none());
    assert_eq!(log, before);

    let account = only(&states.finish());
    assert_eq!(parts(account.available()), (1000, 0, 0, false, 1));
    assert_eq!(parts(account.held()), (0, 0, 0, false, 1));
    assert_eq!(parts(account.total()), (1000, 0, 0, false, 1));
}

#[test]
fn reference_to_unknown_transaction_is_ignored() {
    let mut states = AccountStates::new();
    let mut log = Log::new();
    run(&mut states, &mut log, dispute(1, 99)).expect("failed");
    run(&mut states, &mut log, resolve(1, 99)).expect("failed");
    run(&mut states, &mut log, chargeback(1, 99)).expect("failed");
    assert!(log.is_empty());
    assert!(states.finish().is_empty());
}

#[test]
fn reference_by_another_client_is_ignored() {
    let mut states = AccountStates::new();
    let mut log = Log::new();
    run(&mut states, &mut log, deposit(1, 1, dec(1000, 1))).expect("failed");
    run(&mut states, &mut log, dispute(2, 1)).expect("failed");
    run(&mut states, &mut log, chargeback(2, 1)).expect("failed");
    run(&mut states, &mut log, dispute(1, 1)).expect("failed");
    run(&mut states, &mut log, resolve(2, 1)).expect("failed");

    let account = only(&states.finish());
    assert_eq!(account.client(), 1);
    assert_eq!(account.held(), dec(1000, 1));
    assert!(!account.locked());
}

#[test]
fn failed_transfer_cannot_be_disputed() {
    let mut states = AccountStates::new();
    let mut log = Log::new();
    run(&mut states, &mut log, deposit(1, 1, dec(1000, 1))).expect("failed");
    run(&mut states, &mut log, withdraw(1, 2, dec(1500, 1))).expect("failed");
    run(&mut states, &mut log, dispute(1, 2)).expect("failed");
    run(&mut states, &mut log, chargeback(1, 2)).expect("failed");

    let account = only(&states.finish());
    assert_eq!(parts(account.available()), (1000, 0, 0, false, 1));
    assert_eq!(parts(account.held()), (0, 0, 0, false, 1));
    assert_eq!(parts(account.total()), (1000, 0, 0, false, 1));
    assert!(!account.locked());
}

#[test]
fn chargeback_applies_without_a_dispute() {
    let mut states = AccountStates::new();
    let mut log = Log::new();
    run(&mut states, &mut log, deposit(1, 1, dec(1000, 1))).expect("failed");
    run(&mut states, &mut log, chargeback(1, 1)).expect("failed");

    let account = only(&states.finish());
    assert!(account.locked());
    assert_eq!(account.available(), dec(1000, 1));
    assert_eq!(account.held(), dec(-1000, 1));
    assert_eq!(account.total(), dec(0, 0));
}

#[test]
fn chargeback_after_dispute_empties_held_and_locks() {
    let mut states = AccountStates::new();
    let mut log = Log::new();
    run(&mut states, &mut log, deposit(1, 1, dec(1000, 1))).expect("failed");
    run(&mut states, &mut log, dispute(1, 1)).expect("failed");
    run(&mut states, &mut log, chargeback(1, 1)).expect("failed");

    let account = only(&states.finish());
    assert!(account.locked());
    assert_eq!(account.available(), dec(1000, 1));
    assert_eq!(account.held(), dec(0, 0));
    assert_eq!(account.total(), dec(1000, 1));
}

#[test]
fn locked_account_refuses_deposits_and_stays_locked() {
    let mut states = AccountStates::new();
    let mut log = Log::new();
    run(&mut states, &mut log, deposit(1, 1, dec(1000, 1))).expect("failed");
    run(&mut states, &mut log, dispute(1, 1)).expect("failed");
    run(&mut states, &mut log, chargeback(1, 1)).expect("failed");
    run(&mut states, &mut log, deposit(1, 2, dec(50, 0))).expect("failed");
    run(&mut states, &mut log, withdraw(1, 3, dec(1, 0))).expect("failed");
    run(&mut states, &mut log, dispute(1, 2)).expect("failed");

    let account = only(&states.finish());
    assert!(account.locked());
    assert_eq!(account.available(), dec(1000, 1));
    assert_eq!(account.held(), dec(0, 0));
    assert_eq!(account.total(), dec(1000, 1));
}

#[test]
fn resolve_after_chargeback_releases_again() {
    // A chargeback leaves the record disputed, so a later resolve still
    // finds an open dispute and takes the amount out of `held` once more.
    let mut states = AccountStates::new();
    let mut log = Log::new();
    run(&mut states, &mut log, deposit(1, 1, dec(1000, 1))).expect("failed");
    run(&mut states, &mut log, dispute(1, 1)).expect("failed");
    run(&mut states, &mut log, chargeback(1, 1)).expect("failed");
    run(&mut states, &mut log, resolve(1, 1)).expect("failed");

    let account = only(&states.finish());
    assert!(account.locked());
    assert_eq!(account.available(), dec(1000, 1));
    assert_eq!(account.held(), dec(-1000, 1));
    assert_eq!(account.total(), dec(0, 0));
}

#[test]
fn reused_transaction_id_overwrites_the_record() {
    let mut states = AccountStates::new();
    let mut log = Log::new();
    run(&mut states, &mut log, deposit(1, 1, dec(1000, 1))).expect("failed");
    run(&mut states, &mut log, deposit(1, 1, dec(25, 0))).expect("failed");
    run(&mut states, &mut log, dispute(1, 1)).expect("failed");

    let account = only(&states.finish());
    assert_eq!(account.available(), dec(125, 0));
    assert_eq!(account.held(), dec(25, 0));
}

#[test]
fn invalid_transaction_changes_nothing() {
    let mut states = AccountStates::new();
    let mut log = Log::new();
    run(&mut states, &mut log, deposit(1, 1, dec(1000, 1))).expect("failed");
    let with_amount = Transaction {
        tx_type: TransactionType::Dispute,
        client: 1,
        tx: 1,
        amount: Some(dec(1000, 1)),
    };
    let stored = log.get(&1).cloned();
    let refused = states.submit(with_amount, stored);
    assert!(matches!(refused, Err(CliError::SomeDispute)));
    let negative = states.submit(deposit(1, 2, dec(-1, 0)), None);
    assert!(matches!(negative, Err(CliError::NegativeWire)));

    let account = only(&states.finish());
    assert_eq!(parts(account.available()), (1000, 0, 0, false, 1));
    assert_eq!(parts(account.held()), (0, 0, 0, false, 1));
}

#[test]
fn unreadable_record_is_an_error() {
    let mut states = AccountStates::new();
    let garbage = vec![7u8, 0, 1];
    let r = states.submit(dispute(1, 1), Some(garbage.clone()));
    assert!(matches!(r, Err(CliError::Bincode(_))));
    let r = states.submit(chargeback(1, 1), Some(garbage));
    assert!(matches!(r, Err(CliError::Bincode(_))));
    assert!(states.finish().is_empty());
}

#[test]
fn try_submit_reports_overflow_and_changes_nothing() {
    let max = Amount::from_parts(u32::MAX, u32::MAX, u32::MAX, false, 0).expect("failed");
    let mut states = AccountStates::new();
    let first = states.try_submit(deposit(1, 1, max), None);
    assert!(matches!(first, Some(Ok(Some(_)))));
    assert!(!states.accepts(&deposit(1, 2, dec(1, 0)), &None));
    let second = states.try_submit(deposit(1, 2, dec(1, 0)), None);
    assert!(second.is_none());
    assert!(states.accepts(&withdraw(1, 3, dec(1, 0)), &None));
    let third = states.try_submit(withdraw(1, 3, dec(1, 0)), None);
    assert!(matches!(third, Some(Ok(Some(_)))));

    let account = only(&states.finish());
    assert_eq!(
        parts(account.available()),
        (u32::MAX - 1, u32::MAX, u32::MAX, false, 0)
    );
}

#[test]
fn finish_lists_accounts_by_client() {
    let mut states = AccountStates::new();
    let mut log = Log::new();
    let mut tx = 1;
    for client in [500u16, 2, 65535, 0, 2, 77] {
        run(&mut states, &mut log, deposit(client, tx, dec(10, 0))).expect("failed");
        tx += 1;
    }
    let clients: Vec<u16> = states.finish().iter().map(|a| a.client()).collect();
    assert_eq!(clients, vec![0, 2, 77, 500, 65535]);
}

#[test]
fn record_level_steps() {
    let mut states = AccountStates::new();
    let record = states.apply_deposit(4, dec(1000, 1));
    assert_eq!(record.client(), 4);
    assert!(!record.disputed());
    assert_eq!(record.successful_amount().map(parts), Some((1000, 0, 0, false, 1)));

    let failed = states.apply_withdrawal(4, dec(2000, 1));
    assert!(failed.successful_amount().is_none());
    assert!(matches!(failed, kraken_demo::types::TransactionRecord::Withdrawal { .. }));

    // Another client's dispute, and one on a failed transfer, are ignored.
    assert!(states.can_apply_dispute(5, &record));
    assert!(states.apply_dispute(5, record).is_none());
    assert!(states.apply_dispute(4, failed).is_none());
    assert!(states.apply_resolve(4, record).is_none());

    assert!(states.can_apply_dispute(4, &record));
    let disputed = states.apply_dispute(4, record).expect("failed");
    assert!(disputed.disputed());
    assert_eq!(disputed.client(), 4);
    assert!(states.apply_dispute(4, disputed).is_none());

    assert!(states.can_apply_resolve(4, &disputed));
    let resolved = states.apply_resolve(4, disputed).expect("failed");
    assert!(!resolved.disputed());

    assert!(states.can_apply_chargeback(4, &resolved));
    states.apply_chargeback(9, resolved);
    states.apply_chargeback(4, resolved);

    let account = only(&states.finish());
    assert_eq!(account.client(), 4);
    assert!(account.locked());
    assert_eq!(account.available(), dec(1000, 1));
    assert_eq!(account.held(), dec(-1000, 1));
    assert_eq!(account.total(), dec(0, 0));
}

#[test]
fn record_level_checks_tell_overflow() {
    let max = Amount::from_parts(u32::MAX, u32::MAX, u32::MAX, false, 0).expect("failed");
    let mut states = AccountStates::new();
    let big = states.apply_deposit(1, max);
    states.apply_deposit(2, dec(1, 0));
    // Holding the whole of the largest amount a second time cannot be summed.
    assert!(!states.can_apply_dispute(1, &big));
    assert!(states.can_apply_dispute(2, &big));
    let stored = kraken_demo::codec::encode(&big).expect("failed");
    assert!(!states.accepts(&dispute(1, 1), &Some(stored.clone())));
    assert!(states.try_submit(dispute(1, 1), Some(stored.clone())).is_none());
    assert!(states.accepts(&dispute(2, 1), &Some(stored.clone())));
    assert!(states.accepts(&resolve(1, 1), &Some(stored.clone())));
    assert!(states.accepts(&dispute(1, 1), &None));
    assert!(states.accepts(&dispute(1, 1), &Some(vec![9u8])));
    assert!(states.accepts(&deposit(1, 1, dec(-1, 0)), &None));

    let accounts = states.finish();
    assert_eq!(accounts.len(), 2);
    assert_eq!(parts(accounts[0].held()), (0, 0, 0, false, 1));
}

#[test]
fn transfers_move_money_and_references_do_not() {
    assert!(TransactionType::Deposit.moves_money());
    assert!(TransactionType::Withdrawal.moves_money());
    assert!(!TransactionType::Dispute.moves_money());
    assert!(!TransactionType::Resolve.moves_money());
    assert!(!TransactionType::ChargeBack.moves_money());
}
