use super::account::Account;
use super::amount::{exact_difference, exact_sum, in_range, Amount};
use super::engine::{ensured, process_step, EngineState};
use super::errors::EngineError;
use super::laws::{
    engine_inv, lemma_chargeback_withdraws_held, lemma_deposit_credits, lemma_dispute_holds,
    lemma_inv_preserved, lemma_resolve_releases, lemma_withdrawal_debits,
};
use super::transactions_registry::{DisputeState, Transaction, TransactionType};
use super::types::{ClientId, TransactionId, TransactionOutcome, TransactionRecord};
use vstd::prelude::*;

verus! {

/// The sum of `f` over a finite set of transaction IDs.
pub open spec fn sum_over(ids: Set<TransactionId>, f: spec_fn(TransactionId) -> int) -> int
    decreases ids.len(),
{
    if ids.finite() && ids.len() > 0 {
        let id = ids.choose();
        f(id) + sum_over(ids.remove(id), f)
    } else {
        0
    }
}

/// The sum over a set is the term of any one member plus the sum over the rest.
pub proof fn lemma_sum_remove(ids: Set<TransactionId>, f: spec_fn(TransactionId) -> int, k: TransactionId)
    requires
        ids.finite(),
        ids.contains(k),
    ensures
        sum_over(ids, f) == f(k) + sum_over(ids.remove(k), f),
    decreases ids.len(),
{
    let x = ids.choose();
    assert(ids.len() > 0);
    if x != k {
        lemma_sum_remove(ids.remove(x), f, k);
        lemma_sum_remove(ids.remove(k), f, x);
        assert(ids.remove(x).remove(k) =~= ids.remove(k).remove(x));
    }
}

/// Sums of functions that agree on the set are equal.
pub proof fn lemma_sum_ext(
    ids: Set<TransactionId>,
    f: spec_fn(TransactionId) -> int,
    g: spec_fn(TransactionId) -> int,
)
    requires
        ids.finite(),
        forall|id: TransactionId| ids.contains(id) ==> f(id) == g(id),
    ensures
        sum_over(ids, f) == sum_over(ids, g),
    decreases ids.len(),
{
    if ids.len() > 0 {
        lemma_sum_ext(ids.remove(ids.choose()), f, g);
    }
}

/// Changing one term (and adding its ID where it was missing) changes the sum by the difference.
pub proof fn lemma_sum_update(
    ids: Set<TransactionId>,
    f: spec_fn(TransactionId) -> int,
    g: spec_fn(TransactionId) -> int,
    k: TransactionId,
)
    requires
        ids.finite(),
        forall|id: TransactionId| ids.contains(id) && id != k ==> f(id) == g(id),
    ensures
        sum_over(ids.insert(k), g) == sum_over(ids, f) - (if ids.contains(k) {
            f(k)
        } else {
            0
        }) + g(k),
{
    let n = ids.insert(k);
    lemma_sum_remove(n, g, k);
    assert(n.remove(k) =~= ids.remove(k));
    lemma_sum_ext(ids.remove(k), f, g);
    if ids.contains(k) {
        lemma_sum_remove(ids, f, k);
    } else {
        assert(ids.remove(k) =~= ids);
    }
}

/// The amount that a recorded transaction holds for client `c`: the amount
/// of each of its deposits under dispute.
pub open spec fn held_term(txs: Map<TransactionId, Transaction>, c: ClientId) -> spec_fn(
    TransactionId,
) -> int {
    |id: TransactionId|
        if txs[id].client_id == c && txs[id].state == DisputeState::Disputed {
            txs[id].amount.units()
        } else {
            0
        }
}

/// What a recorded transaction adds to the total funds of client `c`: the
/// amount of each of its deposits not charged back, less the amount of each
/// of its withdrawals.
pub open spec fn balance_term(txs: Map<TransactionId, Transaction>, c: ClientId) -> spec_fn(
    TransactionId,
) -> int {
    |id: TransactionId|
        if txs[id].client_id != c {
            0
        } else if txs[id].transaction_type == TransactionType::Withdrawal {
            -txs[id].amount.units()
        } else if txs[id].state == DisputeState::ChargedBack {
            0
        } else {
            txs[id].amount.units()
        }
}

/// The funds that the recorded transactions hold for client `c`.
pub open spec fn held_for(txs: Map<TransactionId, Transaction>, c: ClientId) -> int {
    sum_over(txs.dom(), held_term(txs, c))
}

/// The total funds that the recorded transactions give client `c`.
pub open spec fn balance_for(txs: Map<TransactionId, Transaction>, c: ClientId) -> int {
    sum_over(txs.dom(), balance_term(txs, c))
}

/// The accounts agree with the recorded history: each client's held funds are
/// the sum of its disputed deposits, and its total funds are the sum of its
/// deposits not charged back less the sum of its withdrawals.
pub open spec fn accounting_inv(s: EngineState) -> bool {
    &&& engine_inv(s)
    &&& s.1.dom().finite()
    &&& forall|c: ClientId| #[trigger]
        s.0.contains_key(c) ==> {
            &&& s.0[c].held.units() == held_for(s.1, c)
            &&& s.0[c].available.units() + s.0[c].held.units() == balance_for(s.1, c)
        }
}

/// `rust_decimal` computed exactly every sum and difference that the record
/// makes the engine compute.
pub open spec fn step_exact(s: EngineState, record: TransactionRecord) -> bool {
    let account = ensured(s.0, record.client())[record.client()];
    match record {
        TransactionRecord::Deposit { amount, .. } => exact_sum(account.available, amount),
        TransactionRecord::Withdrawal { amount, .. } => exact_difference(
            account.available,
            amount,
        ),
        TransactionRecord::Dispute { transaction_id, .. } => exact_difference(
            account.available,
            s.1[transaction_id].amount,
        ) && exact_sum(account.held, s.1[transaction_id].amount),
        TransactionRecord::Resolve { transaction_id, .. } => exact_difference(
            account.held,
            s.1[transaction_id].amount,
        ) && exact_sum(account.available, s.1[transaction_id].amount),
        TransactionRecord::Chargeback { transaction_id, .. } => exact_difference(
            account.held,
            s.1[transaction_id].amount,
        ),
    }
}

/// Every sum and difference that the record makes the engine compute fits
/// in 96 bits at the larger scale of its operands, so that `rust_decimal`
/// computes it exactly.
pub open spec fn step_fits(s: EngineState, record: TransactionRecord) -> bool {
    let account = ensured(s.0, record.client())[record.client()];
    match record {
        TransactionRecord::Deposit { amount, .. } => Amount::add_exact(account.available, amount),
        TransactionRecord::Withdrawal { amount, .. } => Amount::sub_exact(
            account.available,
            amount,
        ),
        TransactionRecord::Dispute { transaction_id, .. } => Amount::sub_exact(
            account.available,
            s.1[transaction_id].amount,
        ) && Amount::add_exact(account.held, s.1[transaction_id].amount),
        TransactionRecord::Resolve { transaction_id, .. } => Amount::sub_exact(
            account.held,
            s.1[transaction_id].amount,
        ) && Amount::add_exact(account.available, s.1[transaction_id].amount),
        TransactionRecord::Chargeback { transaction_id, .. } => Amount::sub_exact(
            account.held,
            s.1[transaction_id].amount,
        ),
    }
}

/// The sum or difference that the record makes the engine compute on the
/// held funds is the value of an amount of scale at most the larger of its
/// operands', so that `rust_decimal` computes it exactly.
pub open spec fn held_step_fits(s: EngineState, record: TransactionRecord) -> bool {
    let account = ensured(s.0, record.client())[record.client()];
    match record {
        TransactionRecord::Dispute { transaction_id, .. } => Amount::add_exact(
            account.held,
            s.1[transaction_id].amount,
        ),
        TransactionRecord::Resolve { transaction_id, .. } => Amount::sub_exact(
            account.held,
            s.1[transaction_id].amount,
        ),
        TransactionRecord::Chargeback { transaction_id, .. } => Amount::sub_exact(
            account.held,
            s.1[transaction_id].amount,
        ),
        _ => true,
    }
}

/// `rust_decimal` computed exactly the sum or difference that the record
/// makes the engine compute on the held funds.
pub open spec fn held_step_exact(s: EngineState, record: TransactionRecord) -> bool {
    let account = ensured(s.0, record.client())[record.client()];
    match record {
        TransactionRecord::Dispute { transaction_id, .. } => exact_sum(
            account.held,
            s.1[transaction_id].amount,
        ),
        TransactionRecord::Resolve { transaction_id, .. } => exact_difference(
            account.held,
            s.1[transaction_id].amount,
        ),
        TransactionRecord::Chargeback { transaction_id, .. } => exact_difference(
            account.held,
            s.1[transaction_id].amount,
        ),
        _ => true,
    }
}

/// Every sum and difference that the record makes the engine compute lies
/// within the decimal range (at most `MAX_MANTISSA` in magnitude), so that
/// `rust_decimal` does not overflow. A withdrawal needs no condition: the
/// available funds cover it.
pub open spec fn step_in_range(s: EngineState, record: TransactionRecord) -> bool {
    let account = ensured(s.0, record.client())[record.client()];
    match record {
        TransactionRecord::Deposit { amount, .. } => in_range(
            account.available.units() + amount.units(),
        ),
        TransactionRecord::Withdrawal { .. } => true,
        TransactionRecord::Dispute { transaction_id, .. } => in_range(
            account.available.units() - s.1[transaction_id].amount.units(),
        ) && in_range(account.held.units() + s.1[transaction_id].amount.units()),
        TransactionRecord::Resolve { transaction_id, .. } => in_range(
            account.held.units() - s.1[transaction_id].amount.units(),
        ) && in_range(account.available.units() + s.1[transaction_id].amount.units()),
        TransactionRecord::Chargeback { transaction_id, .. } => in_range(
            account.held.units() - s.1[transaction_id].amount.units(),
        ),
    }
}

/// The engine starts with its accounts agreeing with its (empty) history.
pub proof fn lemma_accounting_initially()
    ensures
        accounting_inv(
            (Map::<ClientId, Account>::empty(), Map::<TransactionId, Transaction>::empty()),
        ),
{
}

/// A client without an account has no recorded transactions, so nothing held
/// and no funds.
proof fn lemma_no_account_no_funds(s: EngineState, c: ClientId)
    requires
        engine_inv(s),
        s.1.dom().finite(),
        !s.0.contains_key(c),
    ensures
        held_for(s.1, c) == 0,
        balance_for(s.1, c) == 0,
{
    lemma_sum_ext(s.1.dom(), held_term(s.1, c), |id: TransactionId| 0int);
    lemma_sum_ext(s.1.dom(), balance_term(s.1, c), |id: TransactionId| 0int);
    lemma_sum_zero(s.1.dom());
}

proof fn lemma_sum_zero(ids: Set<TransactionId>)
    requires
        ids.finite(),
    ensures
        sum_over(ids, |id: TransactionId| 0int) == 0,
    decreases ids.len(),
{
    if ids.len() > 0 {
        lemma_sum_zero(ids.remove(ids.choose()));
    }
}

proof fn lemma_sum_nonnegative(ids: Set<TransactionId>, f: spec_fn(TransactionId) -> int)
    requires
        ids.finite(),
        forall|id: TransactionId| ids.contains(id) ==> f(id) >= 0,
    ensures
        sum_over(ids, f) >= 0,
    decreases ids.len(),
{
    if ids.len() > 0 {
        lemma_sum_nonnegative(ids.remove(ids.choose()), f);
    }
}

/// Where the accounts agree with the history, no client has negative held funds.
pub proof fn lemma_held_nonnegative(s: EngineState, c: ClientId)
    requires
        accounting_inv(s),
        s.0.contains_key(c),
    ensures
        s.0[c].held.units() >= 0,
{
    lemma_sum_nonnegative(s.1.dom(), held_term(s.1, c));
}

/// Each client's held funds are the sum of its deposits under dispute, so
/// never negative.
pub open spec fn held_inv(s: EngineState) -> bool {
    &&& engine_inv(s)
    &&& s.1.dom().finite()
    &&& forall|c: ClientId| #[trigger]
        s.0.contains_key(c) ==> {
            &&& s.0[c].held.units() == held_for(s.1, c)
            &&& s.0[c].held.units() >= 0
        }
}

/// The engine starts with held funds agreeing with its (empty) history.
pub proof fn lemma_held_initially()
    ensures
        held_inv((Map::<ClientId, Account>::empty(), Map::<TransactionId, Transaction>::empty())),
{
}

/// Every step keeps each client's held funds equal to the sum of its deposits
/// under dispute, whatever its outcome, where `rust_decimal` computes the
/// step's sum or difference on the held funds exactly.
pub proof fn lemma_held_preserved(s: EngineState, record: TransactionRecord)
    requires
        held_inv(s),
        process_step(s, record).0 == Ok::<TransactionOutcome, EngineError>(
            TransactionOutcome::Applied,
        ) ==> held_step_exact(s, record),
    ensures
        held_inv(process_step(s, record).1),
{
    lemma_inv_preserved(s, record);
    let c0 = record.client();
    let id = record.transaction();
    let s0 = (ensured(s.0, c0), s.1);
    let post = process_step(s, record).1;
    if !s.0.contains_key(c0) {
        lemma_no_account_no_funds(s, c0);
        Amount::lemma_zero_units();
    }
    assert forall|c: ClientId| #[trigger] s0.0.contains_key(c) implies {
        &&& s0.0[c].held.units() == held_for(s0.1, c)
        &&& s0.0[c].held.units() >= 0
    } by {
        if c != c0 {
            assert(s.0.contains_key(c));
        }
    }
    if process_step(s, record).0 == Ok::<TransactionOutcome, EngineError>(
        TransactionOutcome::Applied,
    ) {
        assert(post.1.dom() =~= s.1.dom().insert(id));
        assert forall|c: ClientId| #[trigger] post.0.contains_key(c) implies {
            &&& post.0[c].held.units() == held_for(post.1, c)
            &&& post.0[c].held.units() >= 0
        } by {
            lemma_sum_update(s.1.dom(), held_term(s.1, c), held_term(post.1, c), id);
            lemma_sum_nonnegative(post.1.dom(), held_term(post.1, c));
            if c != c0 {
                assert(s0.0.contains_key(c));
            }
        }
    } else {
        assert(post == s0);
    }
}

/// Every step keeps the accounts agreeing with the recorded history, where
/// `rust_decimal` computes the step's sums exactly.
pub proof fn lemma_accounting_preserved(s: EngineState, record: TransactionRecord)
    requires
        accounting_inv(s),
        process_step(s, record).0 == Ok::<TransactionOutcome, EngineError>(
            TransactionOutcome::Applied,
        ) ==> step_exact(s, record),
    ensures
        accounting_inv(process_step(s, record).1),
{
    lemma_inv_preserved(s, record);
    let c0 = record.client();
    let id = record.transaction();
    let s0 = (ensured(s.0, c0), s.1);
    let post = process_step(s, record).1;
    if !s.0.contains_key(c0) {
        lemma_no_account_no_funds(s, c0);
        Amount::lemma_zero_units();
    }
    assert forall|c: ClientId| #[trigger] s0.0.contains_key(c) implies {
        &&& s0.0[c].held.units() == held_for(s0.1, c)
        &&& s0.0[c].available.units() + s0.0[c].held.units() == balance_for(s0.1, c)
    } by {
        if c != c0 {
            assert(s.0.contains_key(c));
        }
    }
    if process_step(s, record).0 == Ok::<TransactionOutcome, EngineError>(
        TransactionOutcome::Applied,
    ) {
        match record {
            TransactionRecord::Deposit { client_id, transaction_id, amount } => {
                lemma_deposit_credits(s, client_id, transaction_id, amount);
            },
            TransactionRecord::Withdrawal { client_id, transaction_id, amount } => {
                lemma_withdrawal_debits(s, client_id, transaction_id, amount);
            },
            TransactionRecord::Dispute { client_id, transaction_id } => {
                lemma_dispute_holds(s, client_id, transaction_id);
            },
            TransactionRecord::Resolve { client_id, transaction_id } => {
                lemma_resolve_releases(s, client_id, transaction_id);
                assert(s.1[id].transaction_type == TransactionType::Deposit);
            },
            TransactionRecord::Chargeback { client_id, transaction_id } => {
                lemma_chargeback_withdraws_held(s, client_id, transaction_id);
                assert(s.1[id].transaction_type == TransactionType::Deposit);
            },
        }
        assert(post.1.dom() =~= s.1.dom().insert(id));
        assert forall|c: ClientId| #[trigger] post.0.contains_key(c) implies {
            &&& post.0[c].held.units() == held_for(post.1, c)
            &&& post.0[c].available.units() + post.0[c].held.units() == balance_for(post.1, c)
        } by {
            lemma_sum_update(s.1.dom(), held_term(s.1, c), held_term(post.1, c), id);
            lemma_sum_update(s.1.dom(), balance_term(s.1, c), balance_term(post.1, c), id);
            if c != c0 {
                assert(s0.0.contains_key(c));
            }
        }
    } else {
        assert(post == s0);
    }
}

} // verus!
