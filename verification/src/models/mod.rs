//! The four entities of the ledger.

pub mod account;
pub mod category;
pub mod expense;
pub mod income;
