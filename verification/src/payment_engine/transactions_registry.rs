use super::amount::Amount;
use super::fx_map::{fx_contains_key, fx_get, fx_get_mut, fx_insert};
use super::types::{ClientId, TransactionId};
use rustc_hash::FxHashMap;
use vstd::prelude::*;

verus! {

broadcast use vstd::std_specs::hash::group_hash_axioms;

/// The kind of a recorded transaction.
#[derive(Debug, Clone, Copy, PartialEq, Eq, Structural)]
pub enum TransactionType {
    Deposit,
    Withdrawal,
}

/// Where a recorded transaction stands in the dispute lifecycle.
#[derive(Debug, Clone, Copy, PartialEq, Eq, Structural)]
pub enum DisputeState {
    Undisputed,
    Disputed,
    Resolved,
    ChargedBack,
}

/// A recorded deposit or withdrawal.
#[derive(Debug, Clone, Copy)]
pub struct Transaction {
    pub transaction_type: TransactionType,
    pub client_id: ClientId,
    pub amount: Amount,
    pub state: DisputeState,
}

impl Transaction {
    /// The record of a transaction that has just been made.
    pub open spec fn fresh(
        transaction_type: TransactionType,
        client_id: ClientId,
        amount: Amount,
    ) -> Transaction {
        Transaction { transaction_type, client_id, amount, state: DisputeState::Undisputed }
    }
}

/// Every deposit and withdrawal made, by transaction ID.
pub struct TransactionsRegistry {
    transactions: FxHashMap<TransactionId, Transaction>,
}

impl View for TransactionsRegistry {
    type V = Map<TransactionId, Transaction>;

    closed spec fn view(&self) -> Map<TransactionId, Transaction> {
        self.transactions@
    }
}

impl TransactionsRegistry {
    pub fn new() -> (r: Self)
        ensures
            r@ == Map::<TransactionId, Transaction>::empty(),
    {
        TransactionsRegistry { transactions: FxHashMap::default() }
    }

    /// Records a new transaction with no dispute. Returns `true` if it was
    /// recorded, `false` (and changes nothing) if `tx_id` is already taken.
    pub fn insert(
        &mut self,
        tx_type: TransactionType,
        tx_id: TransactionId,
        client_id: ClientId,
        amount: Amount,
    ) -> (r: bool)
        ensures
            r == !old(self)@.contains_key(tx_id),
            r ==> final(self)@ == old(self)@.insert(
                tx_id,
                Transaction::fresh(tx_type, client_id, amount),
            ),
            !r ==> final(self)@ == old(self)@,
    {
        let tx = Transaction {
            transaction_type: tx_type,
            client_id,
            amount,
            state: DisputeState::Undisputed,
        };
        if fx_contains_key(&self.transactions, &tx_id) {
            false
        } else {
            fx_insert(&mut self.transactions, tx_id, tx);
            true
        }
    }

    /// The transaction recorded under `tx_id`, if any.
    pub fn get(&self, tx_id: TransactionId) -> (r: Option<&Transaction>)
        ensures
            match r {
                Some(tx) => self@.contains_key(tx_id) && *tx == self@[tx_id],
                None => !self@.contains_key(tx_id),
            },
    {
        fx_get(&self.transactions, &tx_id)
    }

    /// The transaction recorded under `tx_id`, to change in place, if any.
    pub fn get_mut(&mut self, tx_id: TransactionId) -> (r: Option<&mut Transaction>)
        ensures
            match r {
                Some(tx) => old(self)@.contains_key(tx_id) && *tx == old(self)@[tx_id]
                    && final(self)@ == old(self)@.insert(tx_id, *final(tx)),
                None => !old(self)@.contains_key(tx_id) && final(self)@ == old(self)@,
            },
    {
        fx_get_mut(&mut self.transactions, &tx_id)
    }
}

} // verus!
