use payments_engine::payment_engine::amount::{Amount, MAX_MANTISSA};
use payments_engine::payment_engine::csv_utils::{CsvTransactionRecord, RecordError};
use payments_engine::payment_engine::engine::PaymentsEngine;
use payments_engine::payment_engine::errors::EngineError;
use payments_engine::payment_engine::transactions_registry::{DisputeState, TransactionType as Kind};
use payments_engine::payment_engine::types::{
    IgnoreReason, TransactionOutcome, TransactionRecord, TransactionType,
};
use rust_decimal::Decimal;
use std::str::FromStr;

fn d(v: &str) -> Amount {
    let x = Decimal::from_str(v).unwrap();
    Amount::from_parts(x.mantissa(), x.scale()).unwrap()
}

fn deposit(c: u16, tx: u32, a: &str) -> TransactionRecord {
    TransactionRecord::Deposit { client_id: c, transaction_id: tx, amount: d(a) }
}

fn withdrawal(c: u16, tx: u32, a: &str) -> TransactionRecord {
    TransactionRecord::Withdrawal { client_id: c, transaction_id: tx, amount: d(a) }
}

fn dispute(c: u16, tx: u32) -> TransactionRecord {
    TransactionRecord::Dispute { client_id: c, transaction_id: tx }
}

fn resolve(c: u16, tx: u32) -> TransactionRecord {
    TransactionRecord::Resolve { client_id: c, transaction_id: tx }
}

fn chargeback(c: u16, tx: u32) -> TransactionRecord {
    TransactionRecord::Chargeback { client_id: c, transaction_id: tx }
}

const APPLIED: Result<TransactionOutcome, EngineError> = Ok(TransactionOutcome::Applied);

fn ignored(r: IgnoreReason) -> Result<TransactionOutcome, EngineError> {
    Ok(TransactionOutcome::Ignored(r))
}

fn balances(e: &PaymentsEngine, c: u16) -> (Amount, Amount, bool) {
    let a = e.account(c).unwrap();
    (a.available, a.held, a.is_locked)
}

#[test]
fn deposits_and_withdrawals_move_available_funds() {
    let mut e = PaymentsEngine::new();
    assert_eq!(e.process_transaction(deposit(1, 1, "1.0")), APPLIED);
    assert_eq!(e.process_transaction(deposit(2, 2, "2.0")), APPLIED);
    assert_eq!(e.process_transaction(deposit(1, 3, "2.0")), APPLIED);
    assert_eq!(e.process_transaction(withdrawal(1, 4, "1.5")), APPLIED);
    assert_eq!(e.process_transaction(withdrawal(2, 5, "3.0")), ignored(IgnoreReason::InsufficientFunds));
    assert_eq!(balances(&e, 1), (d("1.5"), d("0"), false));
    assert_eq!(balances(&e, 2), (d("2"), d("0"), false));
    assert_eq!(e.account(1).unwrap().total(), d("1.5"));
}

#[test]
fn account_is_created_even_when_ignored() {
    let mut e = PaymentsEngine::new();
    assert!(e.account(9).is_none());
    assert_eq!(e.process_transaction(dispute(9, 100)), ignored(IgnoreReason::TransactionNotFound));
    assert_eq!(balances(&e, 9), (d("0"), d("0"), false));
    assert!(e.transaction(100).is_none());
}

#[test]
fn non_positive_amounts_are_ignored() {
    let mut e = PaymentsEngine::new();
    assert_eq!(e.process_transaction(deposit(1, 1, "0")), ignored(IgnoreReason::NonPositiveAmount));
    assert_eq!(e.process_transaction(deposit(1, 2, "-5")), ignored(IgnoreReason::NonPositiveAmount));
    assert_eq!(e.process_transaction(withdrawal(1, 3, "0.0")), ignored(IgnoreReason::NonPositiveAmount));
    assert!(e.transaction(1).is_none());
    assert_eq!(balances(&e, 1), (d("0"), d("0"), false));
}

#[test]
fn duplicate_transaction_ids_are_ignored() {
    let mut e = PaymentsEngine::new();
    assert_eq!(e.process_transaction(deposit(1, 7, "5")), APPLIED);
    assert_eq!(e.process_transaction(deposit(1, 7, "5")), ignored(IgnoreReason::TransactionDuplicated));
    assert_eq!(e.process_transaction(withdrawal(2, 7, "1")), ignored(IgnoreReason::TransactionDuplicated));
    assert_eq!(balances(&e, 1), (d("5"), d("0"), false));
    assert_eq!(balances(&e, 2), (d("0"), d("0"), false));
    let t = e.transaction(7).unwrap();
    assert_eq!(t.transaction_type, Kind::Deposit);
    assert_eq!(t.client_id, 1);
}

#[test]
fn dispute_holds_and_resolve_releases() {
    let mut e = PaymentsEngine::new();
    e.process_transaction(deposit(1, 1, "10.25")).unwrap();
    e.process_transaction(withdrawal(1, 2, "4")).unwrap();
    assert_eq!(e.process_transaction(dispute(1, 1)), APPLIED);
    assert_eq!(balances(&e, 1), (d("-4.00"), d("10.25"), false));
    assert_eq!(e.account(1).unwrap().total(), d("6.25"));
    assert_eq!(e.transaction(1).unwrap().state, DisputeState::Disputed);
    assert_eq!(e.process_transaction(resolve(1, 1)), APPLIED);
    assert_eq!(balances(&e, 1), (d("6.25"), d("0"), false));
    assert_eq!(e.transaction(1).unwrap().state, DisputeState::Resolved);
}

#[test]
fn a_deposit_is_disputed_only_once() {
    let mut e = PaymentsEngine::new();
    e.process_transaction(deposit(1, 1, "3")).unwrap();
    assert_eq!(e.process_transaction(dispute(1, 1)), APPLIED);
    assert_eq!(e.process_transaction(dispute(1, 1)), ignored(IgnoreReason::TransactionAlreadyDisputed));
    assert_eq!(e.process_transaction(resolve(1, 1)), APPLIED);
    assert_eq!(e.process_transaction(dispute(1, 1)), ignored(IgnoreReason::TransactionAlreadyDisputed));
    assert_eq!(e.process_transaction(resolve(1, 1)), ignored(IgnoreReason::NotDisputed));
    assert_eq!(balances(&e, 1), (d("3"), d("0"), false));
}

#[test]
fn withdrawals_are_not_disputable() {
    let mut e = PaymentsEngine::new();
    e.process_transaction(deposit(1, 1, "3")).unwrap();
    e.process_transaction(withdrawal(1, 2, "1")).unwrap();
    assert_eq!(e.process_transaction(dispute(1, 2)), ignored(IgnoreReason::NotDisputableType));
    assert_eq!(e.transaction(2).unwrap().state, DisputeState::Undisputed);
}

#[test]
fn only_the_owner_can_dispute() {
    let mut e = PaymentsEngine::new();
    e.process_transaction(deposit(1, 1, "3")).unwrap();
    assert_eq!(e.process_transaction(dispute(2, 1)), ignored(IgnoreReason::WrongClient));
    assert_eq!(e.process_transaction(dispute(1, 1)), APPLIED);
    assert_eq!(e.process_transaction(resolve(2, 1)), ignored(IgnoreReason::WrongClient));
    assert_eq!(e.process_transaction(chargeback(2, 1)), ignored(IgnoreReason::WrongClient));
    assert_eq!(balances(&e, 2), (d("0"), d("0"), false));
}

#[test]
fn resolve_and_chargeback_need_a_dispute() {
    let mut e = PaymentsEngine::new();
    e.process_transaction(deposit(1, 1, "3")).unwrap();
    assert_eq!(e.process_transaction(resolve(1, 1)), ignored(IgnoreReason::NotDisputed));
    assert_eq!(e.process_transaction(chargeback(1, 1)), ignored(IgnoreReason::NotDisputed));
    assert_eq!(e.process_transaction(chargeback(1, 99)), ignored(IgnoreReason::TransactionNotFound));
    assert_eq!(e.process_transaction(resolve(1, 99)), ignored(IgnoreReason::TransactionNotFound));
    assert_eq!(balances(&e, 1), (d("3"), d("0"), false));
}

#[test]
fn chargeback_removes_funds_and_locks() {
    let mut e = PaymentsEngine::new();
    e.process_transaction(deposit(1, 1, "5")).unwrap();
    e.process_transaction(deposit(1, 2, "2")).unwrap();
    e.process_transaction(dispute(1, 1)).unwrap();
    assert_eq!(e.process_transaction(chargeback(1, 1)), APPLIED);
    assert_eq!(balances(&e, 1), (d("2"), d("0"), true));
    assert_eq!(e.transaction(1).unwrap().state, DisputeState::ChargedBack);
    assert_eq!(e.process_transaction(chargeback(1, 1)), ignored(IgnoreReason::NotDisputed));
}

#[test]
fn locked_account_refuses_deposits_and_withdrawals_but_not_disputes() {
    let mut e = PaymentsEngine::new();
    e.process_transaction(deposit(1, 1, "5")).unwrap();
    e.process_transaction(deposit(1, 2, "2")).unwrap();
    e.process_transaction(dispute(1, 1)).unwrap();
    e.process_transaction(chargeback(1, 1)).unwrap();
    assert_eq!(e.process_transaction(deposit(1, 3, "1")), ignored(IgnoreReason::AccountLocked));
    assert_eq!(e.process_transaction(withdrawal(1, 4, "1")), ignored(IgnoreReason::AccountLocked));
    assert!(e.transaction(3).is_none());
    assert_eq!(e.process_transaction(dispute(1, 2)), APPLIED);
    assert_eq!(balances(&e, 1), (d("0"), d("2"), true));
    assert_eq!(e.process_transaction(resolve(1, 2)), APPLIED);
    assert_eq!(balances(&e, 1), (d("2"), d("0"), true));
}

#[test]
fn deposit_overflow_is_an_error_and_changes_nothing() {
    let mut e = PaymentsEngine::new();
    let max = Amount::from_parts(MAX_MANTISSA, 0).unwrap();
    let big = TransactionRecord::Deposit { client_id: 1, transaction_id: 1, amount: max };
    assert_eq!(e.process_transaction(big), APPLIED);
    assert_eq!(e.process_transaction(deposit(1, 2, "1")), Err(EngineError::DepositOverflow));
    assert!(e.transaction(2).is_none());
    assert_eq!(balances(&e, 1), (max, d("0"), false));
}

#[test]
fn withdrawal_beyond_available_is_ignored_after_dispute() {
    let mut e = PaymentsEngine::new();
    let max = Amount::from_parts(MAX_MANTISSA, 0).unwrap();
    e.process_transaction(TransactionRecord::Deposit { client_id: 1, transaction_id: 1, amount: max })
        .unwrap();
    e.process_transaction(withdrawal(1, 2, "1")).unwrap();
    // the dispute of the large deposit leaves available at -1 and held at max
    assert_eq!(e.process_transaction(dispute(1, 1)), APPLIED);
    assert_eq!(balances(&e, 1), (d("-1"), max, false));
    let r = e.process_transaction(withdrawal(1, 3, "0.5"));
    assert_eq!(r, ignored(IgnoreReason::InsufficientFunds));
    assert!(e.transaction(3).is_none());
}

#[test]
fn dispute_overflow_is_an_error() {
    let mut e = PaymentsEngine::new();
    let max = Amount::from_parts(MAX_MANTISSA, 0).unwrap();
    e.process_transaction(TransactionRecord::Deposit { client_id: 1, transaction_id: 1, amount: max })
        .unwrap();
    e.process_transaction(TransactionRecord::Withdrawal { client_id: 1, transaction_id: 2, amount: max })
        .unwrap();
    e.process_transaction(TransactionRecord::Deposit { client_id: 1, transaction_id: 3, amount: max })
        .unwrap();
    e.process_transaction(dispute(1, 3)).unwrap();
    // available is 0 and held is max: disputing the first deposit overflows held
    assert_eq!(e.process_transaction(dispute(1, 1)), Err(EngineError::DisputeOverflow));
    assert_eq!(e.transaction(1).unwrap().state, DisputeState::Undisputed);
    assert_eq!(balances(&e, 1), (d("0"), max, false));
}

#[test]
fn resolve_overflow_is_an_error() {
    let mut e = PaymentsEngine::new();
    let max = Amount::from_parts(MAX_MANTISSA, 0).unwrap();
    e.process_transaction(TransactionRecord::Deposit { client_id: 1, transaction_id: 1, amount: max })
        .unwrap();
    e.process_transaction(dispute(1, 1)).unwrap();
    e.process_transaction(TransactionRecord::Deposit { client_id: 1, transaction_id: 2, amount: max })
        .unwrap();
    // available is max: releasing the held max overflows it
    assert_eq!(e.process_transaction(resolve(1, 1)), Err(EngineError::ResolveOverflow));
    assert_eq!(e.transaction(1).unwrap().state, DisputeState::Disputed);
}

#[test]
fn csv_rows_become_records() {
    let row = CsvTransactionRecord {
        transaction_type: TransactionType::Deposit,
        client_id: 3,
        transaction_id: 4,
        amount: Some(d("1.5")),
    };
    match TransactionRecord::try_from(row) {
        Ok(TransactionRecord::Deposit { client_id, transaction_id, amount }) => {
            assert_eq!((client_id, transaction_id), (3, 4));
            assert_eq!(amount, d("1.5"));
        },
        _ => panic!("expected a deposit"),
    }
    let row = CsvTransactionRecord {
        transaction_type: TransactionType::Chargeback,
        client_id: 3,
        transaction_id: 4,
        amount: None,
    };
    assert!(matches!(
        TransactionRecord::try_from(row),
        Ok(TransactionRecord::Chargeback { client_id: 3, transaction_id: 4 })
    ));
}

#[test]
fn csv_rows_without_amount_are_refused() {
    let mut row = CsvTransactionRecord {
        transaction_type: TransactionType::Deposit,
        client_id: 3,
        transaction_id: 4,
        amount: None,
    };
    assert_eq!(TransactionRecord::try_from(row).err(), Some(RecordError::DepositRequiresAmount));
    row.transaction_type = TransactionType::Withdrawal;
    assert_eq!(TransactionRecord::try_from(row).err(), Some(RecordError::WithdrawalRequiresAmount));
}

#[test]
fn accounts_agree_with_history() {
    // held = disputed deposits; available + held = deposits not charged back - withdrawals
    let mut e = PaymentsEngine::new();
    e.process_transaction(deposit(1, 1, "10")).unwrap();
    e.process_transaction(deposit(1, 2, "2.5")).unwrap();
    e.process_transaction(deposit(1, 3, "0.75")).unwrap();
    e.process_transaction(withdrawal(1, 4, "4")).unwrap();
    e.process_transaction(dispute(1, 1)).unwrap();
    e.process_transaction(dispute(1, 3)).unwrap();
    e.process_transaction(chargeback(1, 3)).unwrap();
    e.process_transaction(dispute(1, 2)).unwrap();
    let a = e.account(1).unwrap();
    assert_eq!(a.held, d("12.5"));
    assert_eq!(a.total(), d("8.5"));
    assert_eq!(a.available, d("-4"));
    assert!(a.is_locked);
}

#[test]
fn dispute_of_a_first_deposit_holds_it() {
    let mut e = PaymentsEngine::new();
    assert_eq!(e.process_transaction(deposit(1, 1, "10.0")), APPLIED);
    assert_eq!(e.process_transaction(dispute(1, 1)), APPLIED);
    assert_eq!(balances(&e, 1), (d("0"), d("10.0"), false));
    assert_eq!(e.account(1).unwrap().total(), d("10.0"));
}

#[test]
fn repeated_resolve_is_ignored() {
    let mut e = PaymentsEngine::new();
    assert_eq!(e.process_transaction(deposit(1, 1, "10.0")), APPLIED);
    assert_eq!(e.process_transaction(dispute(1, 1)), APPLIED);
    assert_eq!(e.process_transaction(resolve(1, 1)), APPLIED);
    assert_eq!(e.process_transaction(resolve(1, 1)), ignored(IgnoreReason::NotDisputed));
    assert_eq!(balances(&e, 1), (d("10.0"), d("0"), false));
}

#[test]
fn chargeback_then_withdrawal_on_locked_account() {
    let mut e = PaymentsEngine::new();
    assert_eq!(e.process_transaction(deposit(1, 1, "10.0")), APPLIED);
    assert_eq!(e.process_transaction(deposit(1, 2, "5.0")), APPLIED);
    assert_eq!(e.process_transaction(dispute(1, 1)), APPLIED);
    assert_eq!(e.process_transaction(chargeback(1, 1)), APPLIED);
    assert_eq!(balances(&e, 1), (d("5.0"), d("0"), true));
    assert_eq!(e.account(1).unwrap().total(), d("5.0"));
    assert_eq!(e.process_transaction(withdrawal(1, 3, "1.0")), ignored(IgnoreReason::AccountLocked));
    assert_eq!(balances(&e, 1), (d("5.0"), d("0"), true));
}

#[test]
fn record_errors_have_messages() {
    assert_eq!(RecordError::DepositRequiresAmount.message(), "deposit requires amount");
    assert_eq!(RecordError::WithdrawalRequiresAmount.message(), "withdrawal requires amount");
}

#[test]
fn sums_keep_the_larger_scale() {
    let s = Amount::zero().checked_add(d("10.0")).unwrap();
    assert!(s.scale() <= 1);
    let t = s.checked_add(d("5.0")).unwrap();
    assert_eq!(t, d("15"));
    assert!(t.scale() <= 1);
}
