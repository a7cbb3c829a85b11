//! The rules that stand above the tables.

pub mod account_service;
