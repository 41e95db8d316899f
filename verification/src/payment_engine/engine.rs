use super::account::Account;
use super::accounting::{held_step_exact, held_step_fits, step_exact, step_fits, step_in_range};
use super::amount::{
    decimal_checked_add, decimal_checked_sub, exact_difference, exact_sum, in_range, Amount,
};
use super::errors::EngineError;
use super::fx_map::{fx_contains_key, fx_get, fx_get_mut, fx_insert};
use super::transactions_registry::{DisputeState, Transaction, TransactionType, TransactionsRegistry};
use super::types::{ClientId, IgnoreReason, TransactionId, TransactionOutcome, TransactionRecord};
use rustc_hash::FxHashMap;
use vstd::prelude::*;

verus! {

broadcast use vstd::std_specs::hash::group_hash_axioms;

/// The accounts by client, and the recorded transactions by ID.
pub type EngineState = (Map<ClientId, Account>, Map<TransactionId, Transaction>);

/// What processing one transaction gives back.
pub type StepResult = Result<TransactionOutcome, EngineError>;

pub open spec fn ignored(reason: IgnoreReason) -> StepResult {
    Ok(TransactionOutcome::Ignored(reason))
}

/// The accounts once `client_id` has one: a new, empty account where it had none.
pub open spec fn ensured(accounts: Map<ClientId, Account>, client_id: ClientId) -> Map<
    ClientId,
    Account,
> {
    if accounts.contains_key(client_id) {
        accounts
    } else {
        accounts.insert(client_id, Account::spec_new())
    }
}

/// A deposit.
pub open spec fn deposit_step(
    s: EngineState,
    client_id: ClientId,
    tx_id: TransactionId,
    amount: Amount,
) -> (StepResult, EngineState) {
    let account = s.0[client_id];
    if amount.units() <= 0 {
        (ignored(IgnoreReason::NonPositiveAmount), s)
    } else if !s.0.contains_key(client_id) {
        (Err(EngineError::MissingAccountAfterEnsure), s)
    } else if account.is_locked {
        (ignored(IgnoreReason::AccountLocked), s)
    } else if s.1.contains_key(tx_id) {
        (ignored(IgnoreReason::TransactionDuplicated), s)
    } else {
        match decimal_checked_add(account.available, amount) {
            Some(available) => (
                Ok(TransactionOutcome::Applied),
                (
                    s.0.insert(
                        client_id,
                        Account { available, held: account.held, is_locked: account.is_locked },
                    ),
                    s.1.insert(
                        tx_id,
                        Transaction::fresh(TransactionType::Deposit, client_id, amount),
                    ),
                ),
            ),
            None => (Err(EngineError::DepositOverflow), s),
        }
    }
}

/// A withdrawal.
pub open spec fn withdrawal_step(
    s: EngineState,
    client_id: ClientId,
    tx_id: TransactionId,
    amount: Amount,
) -> (StepResult, EngineState) {
    let account = s.0[client_id];
    if amount.units() <= 0 {
        (ignored(IgnoreReason::NonPositiveAmount), s)
    } else if !s.0.contains_key(client_id) {
        (Err(EngineError::MissingAccountAfterEnsure), s)
    } else if account.is_locked {
        (ignored(IgnoreReason::AccountLocked), s)
    } else if s.1.contains_key(tx_id) {
        (ignored(IgnoreReason::TransactionDuplicated), s)
    } else if account.available.units() < amount.units() {
        (ignored(IgnoreReason::InsufficientFunds), s)
    } else {
        match decimal_checked_sub(account.available, amount) {
            Some(available) => (
                Ok(TransactionOutcome::Applied),
                (
                    s.0.insert(
                        client_id,
                        Account { available, held: account.held, is_locked: account.is_locked },
                    ),
                    s.1.insert(
                        tx_id,
                        Transaction::fresh(TransactionType::Withdrawal, client_id, amount),
                    ),
                ),
            ),
            None => (Err(EngineError::WithdrawalUnderflow), s),
        }
    }
}

/// A dispute of a deposit: its amount moves from available to held.
pub open spec fn dispute_step(s: EngineState, client_id: ClientId, tx_id: TransactionId) -> (
    StepResult,
    EngineState,
) {
    if !s.1.contains_key(tx_id) {
        (ignored(IgnoreReason::TransactionNotFound), s)
    } else {
        let tx = s.1[tx_id];
        let account = s.0[client_id];
        if tx.client_id != client_id {
            (ignored(IgnoreReason::WrongClient), s)
        } else if tx.transaction_type != TransactionType::Deposit {
            (ignored(IgnoreReason::NotDisputableType), s)
        } else if tx.state != DisputeState::Undisputed {
            (ignored(IgnoreReason::TransactionAlreadyDisputed), s)
        } else if !s.0.contains_key(client_id) {
            (Err(EngineError::MissingAccountAfterEnsure), s)
        } else {
            match (
                decimal_checked_sub(account.available, tx.amount),
                decimal_checked_add(account.held, tx.amount),
            ) {
                (Some(available), Some(held)) => (
                    Ok(TransactionOutcome::Applied),
                    (
                        s.0.insert(
                            client_id,
                            Account { available, held, is_locked: account.is_locked },
                        ),
                        s.1.insert(
                            tx_id,
                            Transaction {
                                transaction_type: tx.transaction_type,
                                client_id: tx.client_id,
                                amount: tx.amount,
                                state: DisputeState::Disputed,
                            },
                        ),
                    ),
                ),
                _ => (Err(EngineError::DisputeOverflow), s),
            }
        }
    }
}

/// A resolve of a disputed deposit: its amount moves from held back to available.
pub open spec fn resolve_step(s: EngineState, client_id: ClientId, tx_id: TransactionId) -> (
    StepResult,
    EngineState,
) {
    if !s.1.contains_key(tx_id) {
        (ignored(IgnoreReason::TransactionNotFound), s)
    } else {
        let tx = s.1[tx_id];
        let account = s.0[client_id];
        if tx.client_id != client_id {
            (ignored(IgnoreReason::WrongClient), s)
        } else if tx.state != DisputeState::Disputed {
            (ignored(IgnoreReason::NotDisputed), s)
        } else if !s.0.contains_key(client_id) {
            (Err(EngineError::MissingAccountAfterEnsure), s)
        } else {
            match (
                decimal_checked_sub(account.held, tx.amount),
                decimal_checked_add(account.available, tx.amount),
            ) {
                (Some(held), Some(available)) => (
                    Ok(TransactionOutcome::Applied),
                    (
                        s.0.insert(
                            client_id,
                            Account { available, held, is_locked: account.is_locked },
                        ),
                        s.1.insert(
                            tx_id,
                            Transaction {
                                transaction_type: tx.transaction_type,
                                client_id: tx.client_id,
                                amount: tx.amount,
                                state: DisputeState::Resolved,
                            },
                        ),
                    ),
                ),
                _ => (Err(EngineError::ResolveOverflow), s),
            }
        }
    }
}

/// A chargeback of a disputed deposit: its amount leaves the held funds and
/// the account is locked.
pub open spec fn chargeback_step(s: EngineState, client_id: ClientId, tx_id: TransactionId) -> (
    StepResult,
    EngineState,
) {
    if !s.1.contains_key(tx_id) {
        (ignored(IgnoreReason::TransactionNotFound), s)
    } else {
        let tx = s.1[tx_id];
        let account = s.0[client_id];
        if tx.client_id != client_id {
            (ignored(IgnoreReason::WrongClient), s)
        } else if tx.state != DisputeState::Disputed {
            (ignored(IgnoreReason::NotDisputed), s)
        } else if !s.0.contains_key(client_id) {
            (Err(EngineError::MissingAccountAfterEnsure), s)
        } else {
            match decimal_checked_sub(account.held, tx.amount) {
                Some(held) => (
                    Ok(TransactionOutcome::Applied),
                    (
                        s.0.insert(
                            client_id,
                            Account { available: account.available, held, is_locked: true },
                        ),
                        s.1.insert(
                            tx_id,
                            Transaction {
                                transaction_type: tx.transaction_type,
                                client_id: tx.client_id,
                                amount: tx.amount,
                                state: DisputeState::ChargedBack,
                            },
                        ),
                    ),
                ),
                None => (Err(EngineError::ChargebackUnderflow), s),
            }
        }
    }
}

/// Processing one record: the client's account is made to exist, then the
/// record is applied to it.
pub open spec fn process_step(s: EngineState, record: TransactionRecord) -> (
    StepResult,
    EngineState,
) {
    let s0 = (ensured(s.0, record.client()), s.1);
    match record {
        TransactionRecord::Deposit { client_id, transaction_id, amount } => deposit_step(
            s0,
            client_id,
            transaction_id,
            amount,
        ),
        TransactionRecord::Withdrawal { client_id, transaction_id, amount } => withdrawal_step(
            s0,
            client_id,
            transaction_id,
            amount,
        ),
        TransactionRecord::Dispute { client_id, transaction_id } => dispute_step(
            s0,
            client_id,
            transaction_id,
        ),
        TransactionRecord::Resolve { client_id, transaction_id } => resolve_step(
            s0,
            client_id,
            transaction_id,
        ),
        TransactionRecord::Chargeback { client_id, transaction_id } => chargeback_step(
            s0,
            client_id,
            transaction_id,
        ),
    }
}

/// Processes a stream of transactions into client accounts.
pub struct PaymentsEngine {
    accounts: FxHashMap<ClientId, Account>,
    transactions: TransactionsRegistry,
}

impl View for PaymentsEngine {
    type V = EngineState;

    closed spec fn view(&self) -> EngineState {
        (self.accounts@, self.transactions@)
    }
}

impl PaymentsEngine {
    pub fn new() -> (r: Self)
        ensures
            r@.0 == Map::<ClientId, Account>::empty(),
            r@.1 == Map::<TransactionId, Transaction>::empty(),
    {
        PaymentsEngine { accounts: FxHashMap::default(), transactions: TransactionsRegistry::new() }
    }

    /// Applies one transaction. Business-invalid ones are `Ignored` with their
    /// reason; overflows are errors.
    pub fn process_transaction(&mut self, record: TransactionRecord) -> (r: StepResult)
        ensures
            (r, final(self)@) == process_step(old(self)@, record),
            r == Ok::<TransactionOutcome, EngineError>(TransactionOutcome::Applied) && step_fits(
                old(self)@,
                record,
            ) ==> step_exact(old(self)@, record),
            r == Ok::<TransactionOutcome, EngineError>(TransactionOutcome::Applied)
                && held_step_fits(old(self)@, record) ==> held_step_exact(old(self)@, record),
            step_in_range(old(self)@, record) ==> r is Ok,
            record is Withdrawal && r == Ok::<TransactionOutcome, EngineError>(
                TransactionOutcome::Applied,
            ) ==> final(self)@.0[record.client()].available.units() >= 0,
            record matches TransactionRecord::Withdrawal { client_id, transaction_id, amount } && (
            amount.units() > 0 && !old(self)@.1.contains_key(transaction_id) && !ensured(
                old(self)@.0,
                client_id,
            )[client_id].is_locked && ensured(old(self)@.0, client_id)[client_id].available.units()
                >= amount.units()) ==> r == Ok::<TransactionOutcome, EngineError>(
                TransactionOutcome::Applied,
            ),
            record matches TransactionRecord::Chargeback { client_id, transaction_id } && (
            old(self)@.1.contains_key(transaction_id) && old(self)@.1[transaction_id].client_id
                == client_id && old(self)@.1[transaction_id].state == DisputeState::Disputed && 0
                <= old(self)@.1[transaction_id].amount.units() <= ensured(
                old(self)@.0,
                client_id,
            )[client_id].held.units()) ==> r == Ok::<TransactionOutcome, EngineError>(
                TransactionOutcome::Applied,
            ),
    {
        let client_id = record.client_id();
        self.ensure_account(client_id);
        match record {
            TransactionRecord::Deposit { client_id, transaction_id, amount } => {
                self.deposit(client_id, transaction_id, amount)
            },
            TransactionRecord::Withdrawal { client_id, transaction_id, amount } => {
                self.withdrawal(client_id, transaction_id, amount)
            },
            TransactionRecord::Dispute { client_id, transaction_id } => {
                self.dispute(client_id, transaction_id)
            },
            TransactionRecord::Resolve { client_id, transaction_id } => {
                self.resolve(client_id, transaction_id)
            },
            TransactionRecord::Chargeback { client_id, transaction_id } => {
                self.chargeback(client_id, transaction_id)
            },
        }
    }

    /// The account of `client_id`, if it has one.
    pub fn account(&self, client_id: ClientId) -> (r: Option<&Account>)
        ensures
            match r {
                Some(a) => self@.0.contains_key(client_id) && *a == self@.0[client_id],
                None => !self@.0.contains_key(client_id),
            },
    {
        fx_get(&self.accounts, &client_id)
    }

    /// The transaction recorded under `tx_id`, if any.
    pub fn transaction(&self, tx_id: TransactionId) -> (r: Option<&Transaction>)
        ensures
            match r {
                Some(t) => self@.1.contains_key(tx_id) && *t == self@.1[tx_id],
                None => !self@.1.contains_key(tx_id),
            },
    {
        self.transactions.get(tx_id)
    }

    fn deposit(&mut self, client_id: ClientId, tx_id: TransactionId, amount: Amount) -> (r:
        StepResult)
        ensures
            (r, final(self)@) == deposit_step(old(self)@, client_id, tx_id, amount),
            r == Ok::<TransactionOutcome, EngineError>(TransactionOutcome::Applied)
                && Amount::add_exact(old(self)@.0[client_id].available, amount) ==> exact_sum(
                old(self)@.0[client_id].available,
                amount,
            ),
            old(self)@.0.contains_key(client_id) && in_range(
                old(self)@.0[client_id].available.units() + amount.units(),
            ) ==> r is Ok,
    {
        // ignore non-positive deposits
        if !amount.is_positive() {
            return Ok(TransactionOutcome::Ignored(IgnoreReason::NonPositiveAmount));
        }
        let account = match fx_get_mut(&mut self.accounts, &client_id) {
            Some(a) => a,
            None => {
                return Err(EngineError::MissingAccountAfterEnsure);
            },
        };
        if account.is_locked {
            return Ok(TransactionOutcome::Ignored(IgnoreReason::AccountLocked));
        }
        if self.transactions.get(tx_id).is_some() {
            return Ok(TransactionOutcome::Ignored(IgnoreReason::TransactionDuplicated));
        }
        let new_amount = match account.available.checked_add(amount) {
            Some(v) => v,
            None => {
                return Err(EngineError::DepositOverflow);
            },
        };
        account.available = new_amount;
        self.transactions.insert(TransactionType::Deposit, tx_id, client_id, amount);
        Ok(TransactionOutcome::Applied)
    }

    fn withdrawal(&mut self, client_id: ClientId, tx_id: TransactionId, amount: Amount) -> (r:
        StepResult)
        ensures
            (r, final(self)@) == withdrawal_step(old(self)@, client_id, tx_id, amount),
            r == Ok::<TransactionOutcome, EngineError>(TransactionOutcome::Applied)
                && Amount::sub_exact(old(self)@.0[client_id].available, amount)
                ==> exact_difference(old(self)@.0[client_id].available, amount),
            old(self)@.0.contains_key(client_id) ==> r is Ok,
            r == Ok::<TransactionOutcome, EngineError>(TransactionOutcome::Applied)
                ==> final(self)@.0[client_id].available.units() >= 0,
    {
        // ignore non-positive withdrawals
        if !amount.is_positive() {
            return Ok(TransactionOutcome::Ignored(IgnoreReason::NonPositiveAmount));
        }
        let account = match fx_get_mut(&mut self.accounts, &client_id) {
            Some(a) => a,
            None => {
                return Err(EngineError::MissingAccountAfterEnsure);
            },
        };
        if account.is_locked {
            return Ok(TransactionOutcome::Ignored(IgnoreReason::AccountLocked));
        }
        if self.transactions.get(tx_id).is_some() {
            return Ok(TransactionOutcome::Ignored(IgnoreReason::TransactionDuplicated));
        }
        // no sufficient funds to withdraw
        if account.available.lt(&amount) {
            return Ok(TransactionOutcome::Ignored(IgnoreReason::InsufficientFunds));
        }
        let new_amount = match account.available.checked_sub(amount) {
            Some(v) => v,
            None => {
                return Err(EngineError::WithdrawalUnderflow);
            },
        };
        account.available = new_amount;
        self.transactions.insert(TransactionType::Withdrawal, tx_id, client_id, amount);
        Ok(TransactionOutcome::Applied)
    }

    fn dispute(&mut self, client_id: ClientId, tx_id: TransactionId) -> (r: StepResult)
        ensures
            (r, final(self)@) == dispute_step(old(self)@, client_id, tx_id),
            r == Ok::<TransactionOutcome, EngineError>(TransactionOutcome::Applied) ==> {
                let a = old(self)@.0[client_id];
                let x = old(self)@.1[tx_id].amount;
                &&& Amount::sub_exact(a.available, x) ==> exact_difference(a.available, x)
                &&& Amount::add_exact(a.held, x) ==> exact_sum(a.held, x)
            },
            old(self)@.0.contains_key(client_id) && in_range(
                old(self)@.0[client_id].available.units() - old(self)@.1[tx_id].amount.units(),
            ) && in_range(old(self)@.0[client_id].held.units() + old(self)@.1[tx_id].amount.units())
                ==> r is Ok,
    {
        let tx = match self.transactions.get(tx_id) {
            Some(t) => *t,
            None => {
                return Ok(TransactionOutcome::Ignored(IgnoreReason::TransactionNotFound));
            },
        };
        if tx.client_id != client_id {
            return Ok(TransactionOutcome::Ignored(IgnoreReason::WrongClient));
        }
        // only deposits can be disputed
        if tx.transaction_type != TransactionType::Deposit {
            return Ok(TransactionOutcome::Ignored(IgnoreReason::NotDisputableType));
        }
        // a transaction is disputed at most once
        if tx.state != DisputeState::Undisputed {
            return Ok(TransactionOutcome::Ignored(IgnoreReason::TransactionAlreadyDisputed));
        }
        let account = match fx_get_mut(&mut self.accounts, &client_id) {
            Some(a) => a,
            None => {
                return Err(EngineError::MissingAccountAfterEnsure);
            },
        };
        let available = match account.available.checked_sub(tx.amount) {
            Some(v) => v,
            None => {
                return Err(EngineError::DisputeOverflow);
            },
        };
        let held = match account.held.checked_add(tx.amount) {
            Some(v) => v,
            None => {
                return Err(EngineError::DisputeOverflow);
            },
        };
        account.available = available;
        account.held = held;
        match self.transactions.get_mut(tx_id) {
            Some(t) => {
                t.state = DisputeState::Disputed;
            },
            None => {},
        }
        Ok(TransactionOutcome::Applied)
    }

    fn resolve(&mut self, client_id: ClientId, tx_id: TransactionId) -> (r: StepResult)
        ensures
            (r, final(self)@) == resolve_step(old(self)@, client_id, tx_id),
            r == Ok::<TransactionOutcome, EngineError>(TransactionOutcome::Applied) ==> {
                let a = old(self)@.0[client_id];
                let x = old(self)@.1[tx_id].amount;
                &&& Amount::sub_exact(a.held, x) ==> exact_difference(a.held, x)
                &&& Amount::add_exact(a.available, x) ==> exact_sum(a.available, x)
            },
            old(self)@.0.contains_key(client_id) && in_range(
                old(self)@.0[client_id].held.units() - old(self)@.1[tx_id].amount.units(),
            ) && in_range(
                old(self)@.0[client_id].available.units() + old(self)@.1[tx_id].amount.units(),
            ) ==> r is Ok,
    {
        let tx = match self.transactions.get(tx_id) {
            Some(t) => *t,
            None => {
                return Ok(TransactionOutcome::Ignored(IgnoreReason::TransactionNotFound));
            },
        };
        if tx.client_id != client_id {
            return Ok(TransactionOutcome::Ignored(IgnoreReason::WrongClient));
        }
        if tx.state != DisputeState::Disputed {
            return Ok(TransactionOutcome::Ignored(IgnoreReason::NotDisputed));
        }
        let account = match fx_get_mut(&mut self.accounts, &client_id) {
            Some(a) => a,
            None => {
                return Err(EngineError::MissingAccountAfterEnsure);
            },
        };
        let held = match account.held.checked_sub(tx.amount) {
            Some(v) => v,
            None => {
                return Err(EngineError::ResolveOverflow);
            },
        };
        let available = match account.available.checked_add(tx.amount) {
            Some(v) => v,
            None => {
                return Err(EngineError::ResolveOverflow);
            },
        };
        account.available = available;
        account.held = held;
        match self.transactions.get_mut(tx_id) {
            Some(t) => {
                t.state = DisputeState::Resolved;
            },
            None => {},
        }
        Ok(TransactionOutcome::Applied)
    }

    fn chargeback(&mut self, client_id: ClientId, tx_id: TransactionId) -> (r: StepResult)
        ensures
            (r, final(self)@) == chargeback_step(old(self)@, client_id, tx_id),
            r == Ok::<TransactionOutcome, EngineError>(TransactionOutcome::Applied) ==> {
                let a = old(self)@.0[client_id];
                let x = old(self)@.1[tx_id].amount;
                Amount::sub_exact(a.held, x) ==> exact_difference(a.held, x)
            },
            old(self)@.0.contains_key(client_id) && in_range(
                old(self)@.0[client_id].held.units() - old(self)@.1[tx_id].amount.units(),
            ) ==> r is Ok,
            old(self)@.0.contains_key(client_id) && old(self)@.1.contains_key(tx_id) && 0
                <= old(self)@.1[tx_id].amount.units() <= old(self)@.0[client_id].held.units()
                ==> r is Ok,
    {
        let tx = match self.transactions.get(tx_id) {
            Some(t) => *t,
            None => {
                return Ok(TransactionOutcome::Ignored(IgnoreReason::TransactionNotFound));
            },
        };
        if tx.client_id != client_id {
            return Ok(TransactionOutcome::Ignored(IgnoreReason::WrongClient));
        }
        if tx.state != DisputeState::Disputed {
            return Ok(TransactionOutcome::Ignored(IgnoreReason::NotDisputed));
        }
        let account = match fx_get_mut(&mut self.accounts, &client_id) {
            Some(a) => a,
            None => {
                return Err(EngineError::MissingAccountAfterEnsure);
            },
        };
        let held = match account.held.checked_sub(tx.amount) {
            Some(v) => v,
            None => {
                return Err(EngineError::ChargebackUnderflow);
            },
        };
        account.held = held;
        account.is_locked = true;
        match self.transactions.get_mut(tx_id) {
            Some(t) => {
                t.state = DisputeState::ChargedBack;
            },
            None => {},
        }
        Ok(TransactionOutcome::Applied)
    }

    fn ensure_account(&mut self, client_id: ClientId)
        ensures
            final(self)@ == (ensured(old(self)@.0, client_id), old(self)@.1),
    {
        if !fx_contains_key(&self.accounts, &client_id) {
            fx_insert(&mut self.accounts, client_id, Account::new());
        }
    }
}

} // verus!
