use super::account::Account;
use super::amount::{decimal_checked_add, decimal_checked_sub, exact_difference, exact_sum, Amount};
use super::engine::{ensured, process_step, EngineState, StepResult};
use super::errors::EngineError;
use super::transactions_registry::{DisputeState, Transaction, TransactionType};
use super::types::{ClientId, IgnoreReason, TransactionId, TransactionOutcome, TransactionRecord};
use vstd::prelude::*;

verus! {

/// The step refused the record: it was ignored, or it failed.
pub open spec fn refused(r: StepResult) -> bool {
    r is Err || r matches Ok(TransactionOutcome::Ignored(_))
}

/// The dispute state `next` may follow `prev`: a transaction is disputed at
/// most once, and a dispute ends once, by a resolve or a chargeback.
pub open spec fn state_may_follow(prev: DisputeState, next: DisputeState) -> bool {
    ||| prev == next
    ||| prev == DisputeState::Undisputed && next == DisputeState::Disputed
    ||| prev == DisputeState::Disputed && next == DisputeState::Resolved
    ||| prev == DisputeState::Disputed && next == DisputeState::ChargedBack
}

/// What every reachable state of the engine satisfies: every recorded
/// transaction has a positive amount and belongs to a client with an account;
/// withdrawals are never disputed; and a client with a charged-back deposit
/// is locked.
pub open spec fn engine_inv(s: EngineState) -> bool {
    forall|id: TransactionId| #[trigger]
        s.1.contains_key(id) ==> {
            let tx = s.1[id];
            &&& tx.amount.units() > 0
            &&& s.0.contains_key(tx.client_id)
            &&& tx.transaction_type == TransactionType::Withdrawal ==> tx.state
                == DisputeState::Undisputed
            &&& tx.state == DisputeState::ChargedBack ==> s.0[tx.client_id].is_locked
        }
}

/// The engine starts in a state that satisfies the invariant.
pub proof fn lemma_inv_initially()
    ensures
        engine_inv(
            (Map::<ClientId, Account>::empty(), Map::<TransactionId, Transaction>::empty()),
        ),
{
}

/// Every step keeps the invariant.
pub proof fn lemma_inv_preserved(s: EngineState, record: TransactionRecord)
    requires
        engine_inv(s),
    ensures
        engine_inv(process_step(s, record).1),
{
    let post = process_step(s, record).1;
    assert forall|id: TransactionId| #[trigger] post.1.contains_key(id) implies {
        let tx = post.1[id];
        &&& tx.amount.units() > 0
        &&& post.0.contains_key(tx.client_id)
        &&& tx.transaction_type == TransactionType::Withdrawal ==> tx.state
            == DisputeState::Undisputed
        &&& tx.state == DisputeState::ChargedBack ==> post.0[tx.client_id].is_locked
    } by {
        if s.1.contains_key(id) {
            assert(s.1[id].amount.units() > 0);
        }
    }
}

/// Whatever the record, its client has an account afterwards, and no other
/// client's account is created, removed or changed.
pub proof fn lemma_only_own_account(s: EngineState, record: TransactionRecord)
    ensures
        process_step(s, record).1.0.contains_key(record.client()),
        forall|c: ClientId|
            c != record.client() ==> (#[trigger] process_step(s, record).1.0.contains_key(c)
                == s.0.contains_key(c)) && (s.0.contains_key(c) ==> process_step(s, record).1.0[c]
                == s.0[c]),
{
}

/// A record that is ignored or fails changes nothing but creating its
/// client's account.
pub proof fn lemma_refused_changes_nothing(s: EngineState, record: TransactionRecord)
    requires
        refused(process_step(s, record).0),
    ensures
        process_step(s, record).1 == (ensured(s.0, record.client()), s.1),
{
}

/// The engine never reports a missing account: every record finds its
/// client's account.
pub proof fn lemma_no_missing_account(s: EngineState, record: TransactionRecord)
    ensures
        process_step(s, record).0 != Err::<TransactionOutcome, EngineError>(
            EngineError::MissingAccountAfterEnsure,
        ),
{
}

/// Once locked, an account stays locked.
pub proof fn lemma_lock_is_permanent(s: EngineState, record: TransactionRecord, c: ClientId)
    requires
        s.0.contains_key(c),
        s.0[c].is_locked,
    ensures
        process_step(s, record).1.0.contains_key(c),
        process_step(s, record).1.0[c].is_locked,
{
}

/// A recorded transaction stays recorded, with its kind, client and amount;
/// its dispute state only moves forward. The one transaction that a step may
/// add is the record's own, undisputed.
pub proof fn lemma_history_kept(s: EngineState, record: TransactionRecord)
    ensures
        forall|id: TransactionId| #[trigger]
            s.1.contains_key(id) ==> {
                let post = process_step(s, record).1.1;
                &&& post.contains_key(id)
                &&& post[id].transaction_type == s.1[id].transaction_type
                &&& post[id].client_id == s.1[id].client_id
                &&& post[id].amount == s.1[id].amount
                &&& state_may_follow(s.1[id].state, post[id].state)
            },
        forall|id: TransactionId| #[trigger]
            process_step(s, record).1.1.contains_key(id) && !s.1.contains_key(id) ==> id
                == record.transaction() && process_step(s, record).1.1[id].state
                == DisputeState::Undisputed,
{
}

/// A deposit or withdrawal of a positive amount on a locked account is
/// ignored as `AccountLocked`.
pub proof fn lemma_locked_refuses_movements(s: EngineState, record: TransactionRecord)
    requires
        record is Deposit || record is Withdrawal,
        record is Deposit ==> record->Deposit_amount.units() > 0,
        record is Withdrawal ==> record->Withdrawal_amount.units() > 0,
        s.0.contains_key(record.client()),
        s.0[record.client()].is_locked,
    ensures
        process_step(s, record) == (
            Ok::<TransactionOutcome, EngineError>(
                TransactionOutcome::Ignored(IgnoreReason::AccountLocked),
            ),
            s,
        ),
{
}

/// Transaction IDs are unique across kinds: a deposit or withdrawal of a
/// positive amount on an unlocked account, whose ID is already recorded, is
/// ignored as `TransactionDuplicated`.
pub proof fn lemma_duplicate_ignored(s: EngineState, record: TransactionRecord)
    requires
        record is Deposit || record is Withdrawal,
        record is Deposit ==> record->Deposit_amount.units() > 0,
        record is Withdrawal ==> record->Withdrawal_amount.units() > 0,
        !(s.0.contains_key(record.client()) && s.0[record.client()].is_locked),
        s.1.contains_key(record.transaction()),
    ensures
        process_step(s, record) == (
            Ok::<TransactionOutcome, EngineError>(
                TransactionOutcome::Ignored(IgnoreReason::TransactionDuplicated),
            ),
            (ensured(s.0, record.client()), s.1),
        ),
{
}

/// Only deposits can be disputed: disputing a client's own withdrawal is
/// ignored as `NotDisputableType`.
pub proof fn lemma_withdrawal_not_disputable(s: EngineState, c: ClientId, id: TransactionId)
    requires
        s.1.contains_key(id),
        s.1[id].client_id == c,
        s.1[id].transaction_type == TransactionType::Withdrawal,
    ensures
        process_step(s, TransactionRecord::Dispute { client_id: c, transaction_id: id }).0
            == Ok::<TransactionOutcome, EngineError>(
            TransactionOutcome::Ignored(IgnoreReason::NotDisputableType),
        ),
{
}

/// A deposit is disputed at most once: disputing it again, even after a
/// resolve, is ignored as `TransactionAlreadyDisputed`.
pub proof fn lemma_disputed_once(s: EngineState, c: ClientId, id: TransactionId)
    requires
        s.1.contains_key(id),
        s.1[id].client_id == c,
        s.1[id].transaction_type == TransactionType::Deposit,
        s.1[id].state != DisputeState::Undisputed,
    ensures
        process_step(s, TransactionRecord::Dispute { client_id: c, transaction_id: id }).0
            == Ok::<TransactionOutcome, EngineError>(
            TransactionOutcome::Ignored(IgnoreReason::TransactionAlreadyDisputed),
        ),
{
}

/// A client may only dispute, resolve or charge back its own transactions.
pub proof fn lemma_wrong_client_ignored(s: EngineState, record: TransactionRecord)
    requires
        record is Dispute || record is Resolve || record is Chargeback,
        s.1.contains_key(record.transaction()),
        s.1[record.transaction()].client_id != record.client(),
    ensures
        process_step(s, record) == (
            Ok::<TransactionOutcome, EngineError>(
                TransactionOutcome::Ignored(IgnoreReason::WrongClient),
            ),
            (ensured(s.0, record.client()), s.1),
        ),
{
}

/// A lock blocks only deposits and withdrawals: a dispute, resolve or
/// chargeback has the same outcome on the client's account whether it is
/// locked or not.
pub proof fn lemma_lock_spares_disputes(s: EngineState, record: TransactionRecord)
    requires
        record is Dispute || record is Resolve || record is Chargeback,
        s.0.contains_key(record.client()),
    ensures
        ({
            let c = record.client();
            let a = s.0[c];
            let flipped = (
                s.0.insert(c, Account { available: a.available, held: a.held, is_locked: !a.is_locked }),
                s.1,
            );
            process_step(flipped, record).0 == process_step(s, record).0
        }),
{
}

/// A chargeback that is applied locks the account.
pub proof fn lemma_chargeback_locks(s: EngineState, c: ClientId, id: TransactionId)
    requires
        process_step(s, TransactionRecord::Chargeback { client_id: c, transaction_id: id }).0
            == Ok::<TransactionOutcome, EngineError>(TransactionOutcome::Applied),
    ensures
        process_step(
            s,
            TransactionRecord::Chargeback { client_id: c, transaction_id: id },
        ).1.0[c].is_locked,
        process_step(
            s,
            TransactionRecord::Chargeback { client_id: c, transaction_id: id },
        ).1.1[id].state == DisputeState::ChargedBack,
{
}

/// An applied deposit adds its amount to the available funds (where
/// `rust_decimal` computed the sum exactly) and leaves the held funds.
pub proof fn lemma_deposit_credits(
    s: EngineState,
    c: ClientId,
    id: TransactionId,
    amount: Amount,
)
    requires
        process_step(
            s,
            TransactionRecord::Deposit { client_id: c, transaction_id: id, amount },
        ).0 == Ok::<TransactionOutcome, EngineError>(TransactionOutcome::Applied),
        exact_sum(ensured(s.0, c)[c].available, amount),
    ensures
        ({
            let before = ensured(s.0, c)[c];
            let after = process_step(
                s,
                TransactionRecord::Deposit { client_id: c, transaction_id: id, amount },
            ).1.0[c];
            &&& after.available.units() == before.available.units() + amount.units()
            &&& after.held == before.held
            &&& after.is_locked == before.is_locked
        }),
{
}

/// An applied withdrawal takes its amount from the available funds, which
/// covered it, so they do not go below zero (where `rust_decimal`
/// computed the difference exactly); the held funds stay.
pub proof fn lemma_withdrawal_debits(
    s: EngineState,
    c: ClientId,
    id: TransactionId,
    amount: Amount,
)
    requires
        process_step(
            s,
            TransactionRecord::Withdrawal { client_id: c, transaction_id: id, amount },
        ).0 == Ok::<TransactionOutcome, EngineError>(TransactionOutcome::Applied),
        exact_difference(ensured(s.0, c)[c].available, amount),
    ensures
        ({
            let before = ensured(s.0, c)[c];
            let after = process_step(
                s,
                TransactionRecord::Withdrawal { client_id: c, transaction_id: id, amount },
            ).1.0[c];
            &&& after.available.units() == before.available.units() - amount.units()
            &&& after.available.units() >= 0
            &&& after.held == before.held
        }),
{
}

/// An applied dispute moves the deposit's amount from available to held,
/// leaving the total unchanged (where `rust_decimal` computed the sums exactly).
pub proof fn lemma_dispute_holds(s: EngineState, c: ClientId, id: TransactionId)
    requires
        process_step(s, TransactionRecord::Dispute { client_id: c, transaction_id: id }).0
            == Ok::<TransactionOutcome, EngineError>(TransactionOutcome::Applied),
        s.1.contains_key(id),
        exact_difference(ensured(s.0, c)[c].available, s.1[id].amount),
        exact_sum(ensured(s.0, c)[c].held, s.1[id].amount),
    ensures
        ({
            let before = ensured(s.0, c)[c];
            let amount = s.1[id].amount;
            let after = process_step(
                s,
                TransactionRecord::Dispute { client_id: c, transaction_id: id },
            ).1.0[c];
            &&& after.available.units() == before.available.units() - amount.units()
            &&& after.held.units() == before.held.units() + amount.units()
            &&& after.available.units() + after.held.units() == before.available.units()
                + before.held.units()
        }),
{
}

/// An applied resolve moves the deposit's amount from held back to available,
/// leaving the total unchanged (where `rust_decimal` computed the sums exactly).
pub proof fn lemma_resolve_releases(s: EngineState, c: ClientId, id: TransactionId)
    requires
        process_step(s, TransactionRecord::Resolve { client_id: c, transaction_id: id }).0
            == Ok::<TransactionOutcome, EngineError>(TransactionOutcome::Applied),
        s.1.contains_key(id),
        exact_difference(ensured(s.0, c)[c].held, s.1[id].amount),
        exact_sum(ensured(s.0, c)[c].available, s.1[id].amount),
    ensures
        ({
            let before = ensured(s.0, c)[c];
            let amount = s.1[id].amount;
            let after = process_step(
                s,
                TransactionRecord::Resolve { client_id: c, transaction_id: id },
            ).1.0[c];
            &&& after.available.units() == before.available.units() + amount.units()
            &&& after.held.units() == before.held.units() - amount.units()
            &&& after.available.units() + after.held.units() == before.available.units()
                + before.held.units()
        }),
{
}

/// An applied chargeback removes the deposit's amount from the held funds,
/// so from the total, and leaves the available funds (where `rust_decimal` computed
/// the difference exactly).
pub proof fn lemma_chargeback_withdraws_held(s: EngineState, c: ClientId, id: TransactionId)
    requires
        process_step(s, TransactionRecord::Chargeback { client_id: c, transaction_id: id }).0
            == Ok::<TransactionOutcome, EngineError>(TransactionOutcome::Applied),
        s.1.contains_key(id),
        exact_difference(ensured(s.0, c)[c].held, s.1[id].amount),
    ensures
        ({
            let before = ensured(s.0, c)[c];
            let amount = s.1[id].amount;
            let after = process_step(
                s,
                TransactionRecord::Chargeback { client_id: c, transaction_id: id },
            ).1.0[c];
            &&& after.available == before.available
            &&& after.held.units() == before.held.units() - amount.units()
        }),
{
}

/// A resolve undoes a dispute: disputing a deposit and then resolving it
/// gives the client back the available and held funds it had (where the
/// sums fit the representation), and leaves the deposit `Resolved`.
pub proof fn lemma_resolve_undoes_dispute(s: EngineState, c: ClientId, id: TransactionId)
    requires
        process_step(s, TransactionRecord::Dispute { client_id: c, transaction_id: id }).0
            == Ok::<TransactionOutcome, EngineError>(TransactionOutcome::Applied),
        process_step(
            process_step(s, TransactionRecord::Dispute { client_id: c, transaction_id: id }).1,
            TransactionRecord::Resolve { client_id: c, transaction_id: id },
        ).0 == Ok::<TransactionOutcome, EngineError>(TransactionOutcome::Applied),
        s.1.contains_key(id),
        exact_difference(ensured(s.0, c)[c].available, s.1[id].amount),
        exact_sum(ensured(s.0, c)[c].held, s.1[id].amount),
        ({
            let mid = process_step(
                s,
                TransactionRecord::Dispute { client_id: c, transaction_id: id },
            ).1;
            exact_difference(mid.0[c].held, s.1[id].amount) && exact_sum(
                mid.0[c].available,
                s.1[id].amount,
            )
        }),
    ensures
        ({
            let before = ensured(s.0, c)[c];
            let mid = process_step(
                s,
                TransactionRecord::Dispute { client_id: c, transaction_id: id },
            ).1;
            let after = process_step(
                mid,
                TransactionRecord::Resolve { client_id: c, transaction_id: id },
            ).1;
            &&& after.0[c].available.units() == before.available.units()
            &&& after.0[c].held.units() == before.held.units()
            &&& after.0[c].is_locked == before.is_locked
            &&& after.1[id].state == DisputeState::Resolved
        }),
{
    let mid = process_step(s, TransactionRecord::Dispute { client_id: c, transaction_id: id }).1;
    lemma_dispute_holds(s, c, id);
    assert(mid.1.contains_key(id) && mid.1[id].amount == s.1[id].amount);
    assert(ensured(mid.0, c) == mid.0);
    lemma_resolve_releases(mid, c, id);
}

/// A deposit of a positive amount under a new transaction ID, on an account
/// that is not locked, is applied wherever the sum does not overflow, whatever
/// the sign of the available funds: the amount is added to the available
/// funds, the held funds and the lock stay, and the deposit is recorded,
/// undisputed.
pub proof fn lemma_deposit_applies(s: EngineState, c: ClientId, id: TransactionId, amount: Amount)
    requires
        amount.units() > 0,
        !s.1.contains_key(id),
        !ensured(s.0, c)[c].is_locked,
        decimal_checked_add(ensured(s.0, c)[c].available, amount) is Some,
    ensures
        ({
            let a = ensured(s.0, c)[c];
            let (r, post) = process_step(
                s,
                TransactionRecord::Deposit { client_id: c, transaction_id: id, amount },
            );
            &&& r == Ok::<TransactionOutcome, EngineError>(TransactionOutcome::Applied)
            &&& post.0.contains_key(c)
            &&& post.0[c].available == decimal_checked_add(a.available, amount).unwrap()
            &&& post.0[c].held == a.held
            &&& !post.0[c].is_locked
            &&& post.1 == s.1.insert(
                id,
                Transaction {
                    transaction_type: TransactionType::Deposit,
                    client_id: c,
                    amount,
                    state: DisputeState::Undisputed,
                },
            )
        }),
{
}

/// A withdrawal of a positive amount under a new transaction ID, on an
/// account that is not locked and whose available funds cover it, is
/// applied whatever the held funds (where the difference is computed): the
/// amount leaves the available funds, the held funds stay, and the
/// withdrawal is recorded.
pub proof fn lemma_withdrawal_applies(
    s: EngineState,
    c: ClientId,
    id: TransactionId,
    amount: Amount,
)
    requires
        amount.units() > 0,
        !s.1.contains_key(id),
        !ensured(s.0, c)[c].is_locked,
        ensured(s.0, c)[c].available.units() >= amount.units(),
        decimal_checked_sub(ensured(s.0, c)[c].available, amount) is Some,
    ensures
        ({
            let a = ensured(s.0, c)[c];
            let (r, post) = process_step(
                s,
                TransactionRecord::Withdrawal { client_id: c, transaction_id: id, amount },
            );
            &&& r == Ok::<TransactionOutcome, EngineError>(TransactionOutcome::Applied)
            &&& post.0.contains_key(c)
            &&& post.0[c].available == decimal_checked_sub(a.available, amount).unwrap()
            &&& post.0[c].held == a.held
            &&& !post.0[c].is_locked
            &&& post.1 == s.1.insert(
                id,
                Transaction {
                    transaction_type: TransactionType::Withdrawal,
                    client_id: c,
                    amount,
                    state: DisputeState::Undisputed,
                },
            )
        }),
{
}

/// A withdrawal is ignored as `InsufficientFunds` exactly when its amount is
/// positive, its ID new, its account unlocked, and the available funds fall
/// short of it; the held funds play no part.
pub proof fn lemma_withdrawal_insufficient(
    s: EngineState,
    c: ClientId,
    id: TransactionId,
    amount: Amount,
)
    ensures
        process_step(
            s,
            TransactionRecord::Withdrawal { client_id: c, transaction_id: id, amount },
        ).0 == Ok::<TransactionOutcome, EngineError>(
            TransactionOutcome::Ignored(IgnoreReason::InsufficientFunds),
        ) <==> (amount.units() > 0 && !s.1.contains_key(id) && !ensured(s.0, c)[c].is_locked
            && ensured(s.0, c)[c].available.units() < amount.units()),
{
}

/// A deposit is never ignored for want of funds: it is ignored only for a
/// non-positive amount, a locked account or a taken ID.
pub proof fn lemma_deposit_ignored_only_for(
    s: EngineState,
    c: ClientId,
    id: TransactionId,
    amount: Amount,
)
    ensures
        process_step(
            s,
            TransactionRecord::Deposit { client_id: c, transaction_id: id, amount },
        ).0 matches Ok(TransactionOutcome::Ignored(reason)) ==> (reason
            == IgnoreReason::NonPositiveAmount && amount.units() <= 0) || (reason
            == IgnoreReason::AccountLocked && ensured(s.0, c)[c].is_locked) || (reason
            == IgnoreReason::TransactionDuplicated && s.1.contains_key(id)),
{
}

/// A dispute by its owner of a recorded, undisputed deposit is applied,
/// locked account or not (where the sums are computed): the amount moves
/// from available to held and the deposit becomes `Disputed`.
pub proof fn lemma_dispute_applies(s: EngineState, c: ClientId, id: TransactionId)
    requires
        s.1.contains_key(id),
        s.1[id].client_id == c,
        s.1[id].transaction_type == TransactionType::Deposit,
        s.1[id].state == DisputeState::Undisputed,
        decimal_checked_sub(ensured(s.0, c)[c].available, s.1[id].amount) is Some,
        decimal_checked_add(ensured(s.0, c)[c].held, s.1[id].amount) is Some,
    ensures
        ({
            let a = ensured(s.0, c)[c];
            let x = s.1[id].amount;
            let (r, post) = process_step(
                s,
                TransactionRecord::Dispute { client_id: c, transaction_id: id },
            );
            &&& r == Ok::<TransactionOutcome, EngineError>(TransactionOutcome::Applied)
            &&& post.0[c].available == decimal_checked_sub(a.available, x).unwrap()
            &&& post.0[c].held == decimal_checked_add(a.held, x).unwrap()
            &&& post.0[c].is_locked == a.is_locked
            &&& post.1.contains_key(id)
            &&& post.1[id].state == DisputeState::Disputed
            &&& post.1[id].amount == x
            &&& post.1[id].client_id == c
        }),
{
}

/// A resolve by its owner of a deposit under dispute is applied, whatever
/// other deposits of the client are under dispute and whether the account is
/// locked (where the sums are computed): the amount moves from held back to
/// available and the deposit becomes `Resolved`.
pub proof fn lemma_resolve_applies(s: EngineState, c: ClientId, id: TransactionId)
    requires
        s.1.contains_key(id),
        s.1[id].client_id == c,
        s.1[id].state == DisputeState::Disputed,
        decimal_checked_sub(ensured(s.0, c)[c].held, s.1[id].amount) is Some,
        decimal_checked_add(ensured(s.0, c)[c].available, s.1[id].amount) is Some,
    ensures
        ({
            let a = ensured(s.0, c)[c];
            let x = s.1[id].amount;
            let (r, post) = process_step(
                s,
                TransactionRecord::Resolve { client_id: c, transaction_id: id },
            );
            &&& r == Ok::<TransactionOutcome, EngineError>(TransactionOutcome::Applied)
            &&& post.0[c].available == decimal_checked_add(a.available, x).unwrap()
            &&& post.0[c].held == decimal_checked_sub(a.held, x).unwrap()
            &&& post.0[c].is_locked == a.is_locked
            &&& post.1.contains_key(id)
            &&& post.1[id].state == DisputeState::Resolved
            &&& post.1[id].amount == x
        }),
{
}

/// A chargeback by its owner of a deposit under dispute is applied, whatever
/// the available funds and whether the account is already locked (where the
/// difference is computed): the amount leaves the held funds, the available
/// funds stay, the account is locked and the deposit becomes `ChargedBack`.
pub proof fn lemma_chargeback_applies(s: EngineState, c: ClientId, id: TransactionId)
    requires
        s.1.contains_key(id),
        s.1[id].client_id == c,
        s.1[id].state == DisputeState::Disputed,
        decimal_checked_sub(ensured(s.0, c)[c].held, s.1[id].amount) is Some,
    ensures
        ({
            let a = ensured(s.0, c)[c];
            let x = s.1[id].amount;
            let (r, post) = process_step(
                s,
                TransactionRecord::Chargeback { client_id: c, transaction_id: id },
            );
            &&& r == Ok::<TransactionOutcome, EngineError>(TransactionOutcome::Applied)
            &&& post.0[c].available == a.available
            &&& post.0[c].held == decimal_checked_sub(a.held, x).unwrap()
            &&& post.0[c].is_locked
            &&& post.1.contains_key(id)
            &&& post.1[id].state == DisputeState::ChargedBack
            &&& post.1[id].amount == x
        }),
{
}

/// A step fails only when `rust_decimal` overflows on one of its sums, and
/// each kind of record fails with its own error.
pub proof fn lemma_errors_only_on_overflow(s: EngineState, record: TransactionRecord)
    ensures
        process_step(s, record).0 is Err ==> {
            let c = record.client();
            let a = ensured(s.0, c)[c];
            let e = process_step(s, record).0->Err_0;
            match record {
                TransactionRecord::Deposit { amount, .. } => e == EngineError::DepositOverflow
                    && decimal_checked_add(a.available, amount) is None,
                TransactionRecord::Withdrawal { amount, .. } => e
                    == EngineError::WithdrawalUnderflow && decimal_checked_sub(
                    a.available,
                    amount,
                ) is None,
                TransactionRecord::Dispute { transaction_id, .. } => e
                    == EngineError::DisputeOverflow && (decimal_checked_sub(
                    a.available,
                    s.1[transaction_id].amount,
                ) is None || decimal_checked_add(a.held, s.1[transaction_id].amount) is None),
                TransactionRecord::Resolve { transaction_id, .. } => e
                    == EngineError::ResolveOverflow && (decimal_checked_sub(
                    a.held,
                    s.1[transaction_id].amount,
                ) is None || decimal_checked_add(a.available, s.1[transaction_id].amount)
                    is None),
                TransactionRecord::Chargeback { transaction_id, .. } => e
                    == EngineError::ChargebackUnderflow && decimal_checked_sub(
                    a.held,
                    s.1[transaction_id].amount,
                ) is None,
            }
        },
{
}

/// A dispute, resolve or chargeback is ignored only for a reason that its
/// transaction gives: not recorded, another client's, not a deposit (for a
/// dispute), already disputed (for a dispute), or not under dispute (for a
/// resolve or chargeback). The account's funds and lock play no part.
pub proof fn lemma_dispute_lifecycle_ignored_only_for(s: EngineState, record: TransactionRecord)
    requires
        record is Dispute || record is Resolve || record is Chargeback,
    ensures
        process_step(s, record).0 matches Ok(TransactionOutcome::Ignored(reason)) ==> {
            let id = record.transaction();
            ||| reason == IgnoreReason::TransactionNotFound && !s.1.contains_key(id)
            ||| reason == IgnoreReason::WrongClient && s.1.contains_key(id) && s.1[id].client_id
                != record.client()
            ||| record is Dispute && reason == IgnoreReason::NotDisputableType && s.1.contains_key(
                id,
            ) && s.1[id].transaction_type != TransactionType::Deposit
            ||| record is Dispute && reason == IgnoreReason::TransactionAlreadyDisputed
                && s.1.contains_key(id) && s.1[id].state != DisputeState::Undisputed
            ||| !(record is Dispute) && reason == IgnoreReason::NotDisputed && s.1.contains_key(id)
                && s.1[id].state != DisputeState::Disputed
        },
{
}

} // verus!
