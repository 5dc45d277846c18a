use payment_ledger::{LedgerError, PaymentSystem};

#[test]
fn transfer_moves_funds_and_logs_once() {
    let mut system = PaymentSystem::new();
    system.create_account(1, 20000).unwrap();
    system.create_account(2, 10000).unwrap();

    system.transfer(1, 2, 4000).unwrap();

    assert_eq!(system.get_balance(1).unwrap(), 16000);
    assert_eq!(system.get_balance(2).unwrap(), 14000);
    assert_eq!(system.log_len(), 1);

    let records = system.transactions();
    assert_eq!(records[0].from, 1);
    assert_eq!(records[0].to, 2);
    assert_eq!(records[0].amount, 4000);
}

#[test]
fn insufficient_funds_changes_nothing() {
    let mut system = PaymentSystem::new();
    system.create_account(1, 20000).unwrap();
    system.create_account(2, 10000).unwrap();
    system.transfer(1, 2, 4000).unwrap();
    assert_eq!(system.get_balance(1).unwrap(), 16000);

    let result = system.transfer(1, 2, 999999);
    assert_eq!(result, Err(LedgerError::InsufficientFunds));
    assert_eq!(system.get_balance(1).unwrap(), 16000);
    assert_eq!(system.get_balance(2).unwrap(), 14000);
    assert_eq!(system.log_len(), 1);
}

#[test]
fn duplicate_account_is_rejected() {
    let mut system = PaymentSystem::new();
    system.create_account(1, 0).unwrap();

    let result = system.create_account(1, 500);
    assert_eq!(result, Err(LedgerError::AccountExists));
    assert_eq!(system.get_balance(1).unwrap(), 0);
}

#[test]
fn duplicate_account_fails_whatever_the_balance() {
    let mut system = PaymentSystem::new();
    system.create_account(9, -25).unwrap();
    assert_eq!(system.create_account(9, 0), Err(LedgerError::AccountExists));
    assert_eq!(system.create_account(9, -25), Err(LedgerError::AccountExists));
    assert_eq!(system.create_account(9, i64::MAX), Err(LedgerError::AccountExists));
    assert_eq!(system.get_balance(9).unwrap(), -25);
}

#[test]
fn transfer_from_missing_account_fails() {
    let mut system = PaymentSystem::new();
    system.create_account(2, 100).unwrap();

    let result = system.transfer(1, 2, 10);
    assert_eq!(result, Err(LedgerError::AccountNotFound));
    assert_eq!(system.get_balance(2).unwrap(), 100);
    assert_eq!(system.log_len(), 0);
}

#[test]
fn transfer_to_missing_account_fails() {
    let mut system = PaymentSystem::new();
    system.create_account(1, 100).unwrap();

    let result = system.transfer(1, 2, 10);
    assert_eq!(result, Err(LedgerError::AccountNotFound));
    assert_eq!(system.get_balance(1).unwrap(), 100);
    assert_eq!(system.log_len(), 0);
}

#[test]
fn get_balance_of_missing_account_fails() {
    let system = PaymentSystem::new();
    assert_eq!(system.get_balance(42), Err(LedgerError::AccountNotFound));
}

#[test]
fn conservation_of_pair_balances() {
    let mut system = PaymentSystem::new();
    system.create_account(1, 700).unwrap();
    system.create_account(2, 300).unwrap();
    let before = system.get_balance(1).unwrap() + system.get_balance(2).unwrap();

    system.transfer(1, 2, 250).unwrap();

    let after = system.get_balance(1).unwrap() + system.get_balance(2).unwrap();
    assert_eq!(before, after);
    assert_eq!(system.get_balance(1).unwrap(), 450);
    assert_eq!(system.get_balance(2).unwrap(), 550);
}

#[test]
fn any_order_of_transfers_preserves_the_total() {
    let mut system = PaymentSystem::new();
    system.create_account(1, 500).unwrap();
    system.create_account(2, 400).unwrap();
    system.create_account(3, 100).unwrap();
    let total_before = system.get_balance(1).unwrap() + system.get_balance(2).unwrap()
        + system.get_balance(3).unwrap();

    // A mix of successful and failing transfers, as one serialized
    // interleaving of concurrent callers.
    assert!(system.transfer(1, 2, 200).is_ok());
    assert!(system.transfer(2, 3, 700).is_err());
    assert!(system.transfer(3, 1, 50).is_ok());
    assert!(system.transfer(2, 2, 100).is_ok());
    assert!(system.transfer(4, 1, 10).is_err());
    assert!(system.transfer(2, 1, 600).is_ok());

    let total_after = system.get_balance(1).unwrap() + system.get_balance(2).unwrap()
        + system.get_balance(3).unwrap();
    assert_eq!(total_before, total_after);
    assert_eq!(total_after, 1000);
}

#[test]
fn log_has_one_matching_entry_per_successful_transfer() {
    let mut system = PaymentSystem::new();
    system.create_account(1, 1000).unwrap();
    system.create_account(2, 0).unwrap();
    system.create_account(3, 0).unwrap();

    system.transfer(1, 2, 100).unwrap();
    system.transfer(1, 3, 200).unwrap();
    system.transfer(2, 3, 50).unwrap();

    assert_eq!(system.log_len(), 3);
    let records = system.transactions();
    let expected = [(1u64, 2u64, 100i64), (1, 3, 200), (2, 3, 50)];
    for (record, (from, to, amount)) in records.iter().zip(expected.iter()) {
        assert_eq!(record.from, *from);
        assert_eq!(record.to, *to);
        assert_eq!(record.amount, *amount);
    }
}

#[test]
fn failed_transfers_are_not_logged() {
    let mut system = PaymentSystem::new();
    system.create_account(1, 10).unwrap();
    system.create_account(2, 10).unwrap();

    assert!(system.transfer(1, 2, 11).is_err());
    assert!(system.transfer(1, 7, 1).is_err());
    assert!(system.transfer(7, 1, 1).is_err());
    assert_eq!(system.log_len(), 0);

    system.transfer(1, 2, 10).unwrap();
    assert_eq!(system.log_len(), 1);
}

#[test]
fn self_transfer_nets_to_zero_but_is_logged() {
    let mut system = PaymentSystem::new();
    system.create_account(5, 80).unwrap();

    system.transfer(5, 5, 30).unwrap();

    assert_eq!(system.get_balance(5).unwrap(), 80);
    assert_eq!(system.log_len(), 1);
    let records = system.transactions();
    assert_eq!(records[0].from, 5);
    assert_eq!(records[0].to, 5);
    assert_eq!(records[0].amount, 30);
}

#[test]
fn zero_amount_transfer_succeeds_and_is_logged() {
    let mut system = PaymentSystem::new();
    system.create_account(1, 10).unwrap();
    system.create_account(2, 20).unwrap();

    system.transfer(1, 2, 0).unwrap();

    assert_eq!(system.get_balance(1).unwrap(), 10);
    assert_eq!(system.get_balance(2).unwrap(), 20);
    assert_eq!(system.log_len(), 1);
}

#[test]
fn negative_amount_reverses_the_direction() {
    // The validation never checks the amount's sign, so a negative amount
    // passes the sufficiency check trivially and moves value backwards.
    let mut system = PaymentSystem::new();
    system.create_account(1, 10).unwrap();
    system.create_account(2, 20).unwrap();

    system.transfer(1, 2, -5).unwrap();

    assert_eq!(system.get_balance(1).unwrap(), 15);
    assert_eq!(system.get_balance(2).unwrap(), 15);
    assert_eq!(system.log_len(), 1);
    assert_eq!(system.transactions()[0].amount, -5);
}

#[test]
fn negative_initial_balance_is_allowed() {
    let mut system = PaymentSystem::new();
    system.create_account(1, -100).unwrap();
    assert_eq!(system.get_balance(1).unwrap(), -100);

    // A negative balance can never cover a positive transfer.
    system.create_account(2, 0).unwrap();
    assert_eq!(system.transfer(1, 2, 1), Err(LedgerError::InsufficientFunds));
}

#[test]
fn insufficient_funds_boundary_is_exact() {
    let mut system = PaymentSystem::new();
    system.create_account(1, 100).unwrap();
    system.create_account(2, 0).unwrap();

    assert_eq!(system.transfer(1, 2, 101), Err(LedgerError::InsufficientFunds));
    assert!(system.transfer(1, 2, 100).is_ok());
    assert_eq!(system.get_balance(1).unwrap(), 0);
    assert_eq!(system.get_balance(2).unwrap(), 100);
}

#[test]
fn error_messages_name_the_condition() {
    assert_eq!(LedgerError::AccountExists.message(), "Account already exists");
    assert_eq!(LedgerError::AccountNotFound.message(), "Account not found");
    assert_eq!(LedgerError::InsufficientFunds.message(), "Insufficient funds");
}
