use vstd::prelude::*;

verus! {

/// A hard failure: an arithmetic overflow, or a broken internal invariant.
#[derive(Debug, Clone, Copy, PartialEq, Eq, Structural)]
pub enum EngineError {
    MissingAccountAfterEnsure,
    DepositOverflow,
    WithdrawalUnderflow,
    DisputeOverflow,
    ResolveOverflow,
    ChargebackUnderflow,
}

} // verus!
