use super::amount::Amount;
use super::types::{ClientId, TransactionId, TransactionRecord, TransactionType};
use vstd::prelude::*;

verus! {

/// One row of the input CSV: `type, client, tx, amount`.
#[derive(Debug, Clone, Copy)]
pub struct CsvTransactionRecord {
    pub transaction_type: TransactionType,
    pub client_id: ClientId,
    pub transaction_id: TransactionId,
    pub amount: Option<Amount>,
}

/// Why a row is not a transaction.
#[derive(Debug, Clone, Copy, PartialEq, Eq, Structural)]
pub enum RecordError {
    DepositRequiresAmount,
    WithdrawalRequiresAmount,
}

impl RecordError {
    /// The message that a refused row is reported with.
    pub fn message(&self) -> (r: &'static str)
        ensures
            *self == RecordError::DepositRequiresAmount ==> r@ == "deposit requires amount"@,
            *self == RecordError::WithdrawalRequiresAmount ==> r@ == "withdrawal requires amount"@,
    {
        match self {
            RecordError::DepositRequiresAmount => "deposit requires amount",
            RecordError::WithdrawalRequiresAmount => "withdrawal requires amount",
        }
    }
}

/// The transaction that a row stands for: deposits and withdrawals need an
/// amount; the other kinds ignore it.
pub open spec fn record_of_row(r: CsvTransactionRecord) -> Result<TransactionRecord, RecordError> {
    match r.transaction_type {
        TransactionType::Deposit => match r.amount {
            Some(amount) => Ok(
                TransactionRecord::Deposit {
                    client_id: r.client_id,
                    transaction_id: r.transaction_id,
                    amount,
                },
            ),
            None => Err(RecordError::DepositRequiresAmount),
        },
        TransactionType::Withdrawal => match r.amount {
            Some(amount) => Ok(
                TransactionRecord::Withdrawal {
                    client_id: r.client_id,
                    transaction_id: r.transaction_id,
                    amount,
                },
            ),
            None => Err(RecordError::WithdrawalRequiresAmount),
        },
        TransactionType::Dispute => Ok(
            TransactionRecord::Dispute { client_id: r.client_id, transaction_id: r.transaction_id },
        ),
        TransactionType::Resolve => Ok(
            TransactionRecord::Resolve { client_id: r.client_id, transaction_id: r.transaction_id },
        ),
        TransactionType::Chargeback => Ok(
            TransactionRecord::Chargeback {
                client_id: r.client_id,
                transaction_id: r.transaction_id,
            },
        ),
    }
}

impl TryFrom<CsvTransactionRecord> for TransactionRecord {
    type Error = RecordError;

    fn try_from(r: CsvTransactionRecord) -> (res: Result<Self, Self::Error>)
        ensures
            res == record_of_row(r),
            res matches Ok(rec) ==> kind_of(rec) == r.transaction_type && rec.client()
                == r.client_id && rec.transaction() == r.transaction_id,
    {
        let CsvTransactionRecord { transaction_type, client_id, transaction_id, amount } = r;
        match transaction_type {
            TransactionType::Deposit => match amount {
                Some(amount) => Ok(TransactionRecord::Deposit { client_id, transaction_id, amount }),
                None => Err(RecordError::DepositRequiresAmount),
            },
            TransactionType::Withdrawal => match amount {
                Some(amount) => Ok(
                    TransactionRecord::Withdrawal { client_id, transaction_id, amount },
                ),
                None => Err(RecordError::WithdrawalRequiresAmount),
            },
            TransactionType::Dispute => Ok(TransactionRecord::Dispute { client_id, transaction_id }),
            TransactionType::Resolve => Ok(TransactionRecord::Resolve { client_id, transaction_id }),
            TransactionType::Chargeback => Ok(
                TransactionRecord::Chargeback { client_id, transaction_id },
            ),
        }
    }
}

impl vstd::std_specs::convert::TryFromSpecImpl<CsvTransactionRecord> for TransactionRecord {
    open spec fn obeys_try_from_spec() -> bool {
        true
    }

    open spec fn try_from_spec(v: CsvTransactionRecord) -> Result<Self, RecordError> {
        record_of_row(v)
    }
}

/// The kind of a transaction record.
pub open spec fn kind_of(record: TransactionRecord) -> TransactionType {
    match record {
        TransactionRecord::Deposit { .. } => TransactionType::Deposit,
        TransactionRecord::Withdrawal { .. } => TransactionType::Withdrawal,
        TransactionRecord::Dispute { .. } => TransactionType::Dispute,
        TransactionRecord::Resolve { .. } => TransactionType::Resolve,
        TransactionRecord::Chargeback { .. } => TransactionType::Chargeback,
    }
}

/// The amount that a record carries, if its kind carries one.
pub open spec fn amount_of(record: TransactionRecord) -> Option<Amount> {
    match record {
        TransactionRecord::Deposit { amount, .. } => Some(amount),
        TransactionRecord::Withdrawal { amount, .. } => Some(amount),
        _ => None,
    }
}

/// A row becomes a record of the row's own kind, with the row's client and
/// transaction, and, for a deposit or withdrawal, the row's amount. A row is
/// refused exactly when it is a deposit or withdrawal without an amount.
pub proof fn lemma_row_becomes_record_of_its_kind(r: CsvTransactionRecord)
    ensures
        record_of_row(r) is Err <==> (r.amount is None && (r.transaction_type
            == TransactionType::Deposit || r.transaction_type == TransactionType::Withdrawal)),
        record_of_row(r) matches Ok(rec) ==> {
            &&& kind_of(rec) == r.transaction_type
            &&& rec.client() == r.client_id
            &&& rec.transaction() == r.transaction_id
            &&& (r.transaction_type == TransactionType::Deposit || r.transaction_type
                == TransactionType::Withdrawal) ==> amount_of(rec) == r.amount
        },
{
}

} // verus!
