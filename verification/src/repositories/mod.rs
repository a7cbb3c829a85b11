//! One module for each table: the statements of its operations, and the
//! reading of the rows that come back.

pub mod account_repository;
pub mod category_repository;
pub mod expense_repository;
pub mod income_repository;
