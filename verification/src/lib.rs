//! Persistence core of a personal-finance ledger.
//!
//! The crate holds everything the ledger's store layer decides or computes:
//! the table definitions, the statements each operation sends, the codecs
//! between domain values and their stored form, and the reading of what the
//! store hands back. Talking to the store itself is left to the caller, who
//! runs a [`statement::Statement`] and reports the outcome.

pub mod amount;
pub mod db;
pub mod decimal;
pub mod error;
pub mod models;
pub mod repositories;
pub mod services;
pub mod statement;
pub mod timestamp;
