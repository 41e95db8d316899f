pub mod account;
pub mod accounting;
pub mod amount;
pub mod csv_utils;
pub mod engine;
pub mod errors;
pub mod fx_map;
pub mod laws;
pub mod transactions_registry;
pub mod types;
