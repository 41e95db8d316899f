use payments_engine::payment_engine::amount::Amount;
use payments_engine::payment_engine::transactions_registry::{
    DisputeState, TransactionType, TransactionsRegistry,
};
use rust_decimal::Decimal;
use std::str::FromStr;

fn d(v: &str) -> Amount {
    let x = Decimal::from_str(v).unwrap();
    Amount::from_parts(x.mantissa(), x.scale()).unwrap()
}

#[test]
fn insert_returns_true_for_new_tx_and_false_for_duplicate() {
    let mut registry = TransactionsRegistry::new();

    let first = registry.insert(TransactionType::Deposit, 1, 10, d("1.2500"));
    let second = registry.insert(TransactionType::Withdrawal, 1, 10, d("9.9999"));

    assert!(first);
    assert!(!second);

    let tx = registry.get(1).unwrap();
    assert_eq!(tx.client_id, 10);
    assert_eq!(tx.amount, d("1.2500"));
    assert_eq!(tx.transaction_type, TransactionType::Deposit);
    assert_eq!(tx.state, DisputeState::Undisputed);
}

#[test]
fn get_returns_none_for_missing_tx() {
    let registry = TransactionsRegistry::new();
    assert!(registry.get(999).is_none());
}

#[test]
fn get_returns_inserted_transaction() {
    let mut registry = TransactionsRegistry::new();
    registry.insert(TransactionType::Withdrawal, 42, 7, d("3.5000"));

    let tx = registry.get(42).unwrap();
    assert_eq!(tx.transaction_type, TransactionType::Withdrawal);
    assert_eq!(tx.client_id, 7);
    assert_eq!(tx.amount, d("3.5000"));
    assert_eq!(tx.state, DisputeState::Undisputed);
}

#[test]
fn get_mut_allows_updating_dispute_state() {
    let mut registry = TransactionsRegistry::new();
    registry.insert(TransactionType::Deposit, 5, 1, d("2.0000"));

    let tx = registry.get_mut(5).unwrap();
    tx.state = DisputeState::Disputed;

    let tx = registry.get(5).unwrap();
    assert_eq!(tx.state, DisputeState::Disputed);
}

#[test]
fn duplicate_insert_does_not_overwrite_existing_transaction() {
    let mut registry = TransactionsRegistry::new();
    registry.insert(TransactionType::Deposit, 77, 1, d("4.0000"));

    let inserted = registry.insert(TransactionType::Withdrawal, 77, 2, d("8.0000"));
    assert!(!inserted);

    let tx = registry.get(77).unwrap();
    assert_eq!(tx.transaction_type, TransactionType::Deposit);
    assert_eq!(tx.client_id, 1);
    assert_eq!(tx.amount, d("4.0000"));
    assert_eq!(tx.state, DisputeState::Undisputed);
}

#[test]
fn get_mut_returns_none_for_missing_tx() {
    let mut registry = TransactionsRegistry::new();
    registry.insert(TransactionType::Deposit, 5, 1, d("2.0000"));
    assert!(registry.get_mut(6).is_none());
    assert_eq!(registry.get(5).unwrap().state, DisputeState::Undisputed);
}
