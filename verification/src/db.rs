//! The tables of the store.
//!
//! Three tables are created when the store is set up. Entries of income and
//! of expense refer to a category, so the table of categories comes first.
//! Each definition only creates what is not there yet, so setting up a store
//! that is already set up changes nothing.

use crate::statement::{SqlValueView, Statement};
use vstd::prelude::*;

verus! {

pub const CREATE_CATEGORIES_TABLE: &'static str =
    "CREATE TABLE IF NOT EXISTS categories (id INTEGER PRIMARY KEY, name TEXT NOT NULL, category_type INTEGER NOT NULL CHECK(category_type IN (1, 2)))";

pub const CREATE_INCOME_TABLE: &'static str =
    "CREATE TABLE IF NOT EXISTS income (id INTEGER PRIMARY KEY, description TEXT NOT NULL, amount REAL NOT NULL, date TEXT NOT NULL, category_id INTEGER NOT NULL, FOREIGN KEY (category_id) REFERENCES categories (id))";

pub const CREATE_EXPENSES_TABLE: &'static str =
    "CREATE TABLE IF NOT EXISTS expenses (id INTEGER PRIMARY KEY, description TEXT NOT NULL, amount REAL NOT NULL, date TEXT NOT NULL, category_id INTEGER NOT NULL, FOREIGN KEY (category_id) REFERENCES categories (id))";

/// The statements that set the store up, in the order in which they are to
/// run: categories, then income, then expenses. None has parameters. The
/// caller runs them one after the other and stops at the first that fails.
pub fn init_database() -> (statements: Vec<Statement>)
    ensures
        statements@.len() == 3,
        statements@[0]@.sql == CREATE_CATEGORIES_TABLE@,
        statements@[1]@.sql == CREATE_INCOME_TABLE@,
        statements@[2]@.sql == CREATE_EXPENSES_TABLE@,
        forall|i: int|
            0 <= i < 3 ==> (#[trigger] statements@[i])@.params == Seq::<SqlValueView>::empty(),
{
    let mut statements: Vec<Statement> = Vec::new();
    statements.push(Statement::plain(CREATE_CATEGORIES_TABLE));
    statements.push(Statement::plain(CREATE_INCOME_TABLE));
    statements.push(Statement::plain(CREATE_EXPENSES_TABLE));
    statements
}

} // verus!
