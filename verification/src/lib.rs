//! A payments engine: client accounts, a registry of deposits and withdrawals,
//! and the dispute / resolve / chargeback lifecycle, with the rules proved.
pub mod payment_engine;
