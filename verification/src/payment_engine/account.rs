use super::amount::{decimal_checked_add, Amount};
use vstd::prelude::*;

verus! {

/// The funds of one client.
#[derive(Debug, Clone, Copy)]
pub struct Account {
    /// Funds the client can withdraw.
    pub available: Amount,
    /// Funds held while a deposit is disputed.
    pub held: Amount,
    /// Set by a chargeback; blocks deposits and withdrawals.
    pub is_locked: bool,
}

impl Account {
    /// The account of a client that has no history: nothing available, nothing held, not locked.
    pub open spec fn spec_new() -> Account {
        Account { available: Amount::spec_zero(), held: Amount::spec_zero(), is_locked: false }
    }

    pub fn new() -> (r: Self)
        ensures
            r == Account::spec_new(),
            r.available.units() == 0,
            r.held.units() == 0,
            r.available.mantissa_spec() == 0 && r.available.scale_spec() == 0,
            r.held.mantissa_spec() == 0 && r.held.scale_spec() == 0,
    {
        Account { available: Amount::zero(), held: Amount::zero(), is_locked: false }
    }

    /// The client's total funds, `available + held`. The sum must not overflow.
    pub fn total(&self) -> (r: Amount)
        requires
            decimal_checked_add(self.available, self.held) is Some,
        ensures
            r == decimal_checked_add(self.available, self.held).unwrap(),
            Amount::add_exact(self.available, self.held) ==> r.units() == self.available.units()
                + self.held.units(),
    {
        self.available.checked_add(self.held).unwrap()
    }

    /// The client's total funds, `available + held`, or `None` where the sum overflows.
    pub fn try_total(&self) -> (r: Option<Amount>)
        ensures
            r == decimal_checked_add(self.available, self.held),
            Amount::add_exact(self.available, self.held) ==> r.is_some() && r.unwrap().units()
                == self.available.units() + self.held.units(),
    {
        self.available.checked_add(self.held)
    }
}

} // verus!
