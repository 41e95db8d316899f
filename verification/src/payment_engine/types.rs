use super::amount::Amount;
use vstd::prelude::*;

verus! {

pub type ClientId = u16;

pub type TransactionId = u32;

/// The kind of a row of input.
#[derive(Debug, Clone, Copy, PartialEq, Eq, Structural)]
pub enum TransactionType {
    Deposit,
    Withdrawal,
    Dispute,
    Resolve,
    Chargeback,
}

/// One transaction to process.
#[derive(Debug, Clone, Copy)]
pub enum TransactionRecord {
    Deposit { client_id: ClientId, transaction_id: TransactionId, amount: Amount },
    Withdrawal { client_id: ClientId, transaction_id: TransactionId, amount: Amount },
    Dispute { client_id: ClientId, transaction_id: TransactionId },
    Resolve { client_id: ClientId, transaction_id: TransactionId },
    Chargeback { client_id: ClientId, transaction_id: TransactionId },
}

impl TransactionRecord {
    /// The client that the record names.
    pub open spec fn client(self) -> ClientId {
        match self {
            TransactionRecord::Deposit { client_id, .. } => client_id,
            TransactionRecord::Withdrawal { client_id, .. } => client_id,
            TransactionRecord::Dispute { client_id, .. } => client_id,
            TransactionRecord::Resolve { client_id, .. } => client_id,
            TransactionRecord::Chargeback { client_id, .. } => client_id,
        }
    }

    /// The transaction that the record names.
    pub open spec fn transaction(self) -> TransactionId {
        match self {
            TransactionRecord::Deposit { transaction_id, .. } => transaction_id,
            TransactionRecord::Withdrawal { transaction_id, .. } => transaction_id,
            TransactionRecord::Dispute { transaction_id, .. } => transaction_id,
            TransactionRecord::Resolve { transaction_id, .. } => transaction_id,
            TransactionRecord::Chargeback { transaction_id, .. } => transaction_id,
        }
    }

    /// The client that the record names.
    pub fn client_id(&self) -> (r: ClientId)
        ensures
            r == self.client(),
    {
        match self {
            TransactionRecord::Deposit { client_id, .. }
            | TransactionRecord::Withdrawal { client_id, .. }
            | TransactionRecord::Dispute { client_id, .. }
            | TransactionRecord::Resolve { client_id, .. }
            | TransactionRecord::Chargeback { client_id, .. } => *client_id,
        }
    }
}

/// Why a transaction that breaks a business rule was ignored.
#[derive(Debug, Clone, Copy, PartialEq, Eq, Structural)]
pub enum IgnoreReason {
    NonPositiveAmount,
    InsufficientFunds,
    TransactionDuplicated,
    NotDisputableType,
    TransactionAlreadyDisputed,
    AccountLocked,
    TransactionNotFound,
    WrongClient,
    NotDisputed,
}

/// What became of a processed transaction.
#[derive(Debug, Clone, Copy, PartialEq, Eq, Structural)]
pub enum TransactionOutcome {
    Applied,
    Ignored(IgnoreReason),
}

} // verus!
