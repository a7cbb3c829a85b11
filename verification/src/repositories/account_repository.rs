use crate::amount::Amount;
use crate::error::{classify, error_of, Failure, StoreError};
use crate::models::account::Account;
use crate::statement::{optional_text, SqlValue, SqlValueView, Statement};
use vstd::prelude::*;

verus! {

/// The definition of the table of accounts. It is no part of what
/// [`crate::db::init_database`] creates: who sets the store up runs it apart.
/// No other table refers to it, and it refers to none.
pub const CREATE_ACCOUNTS_TABLE: &'static str =
    "CREATE TABLE IF NOT EXISTS accounts (id INTEGER PRIMARY KEY, name TEXT NOT NULL, description TEXT, balance REAL NOT NULL)";

pub const INSERT_ACCOUNT: &'static str =
    "INSERT INTO accounts (name, description, balance) VALUES (?1, ?2, ?3)";

pub const SELECT_ACCOUNTS: &'static str = "SELECT id, name, description, balance FROM accounts";

pub const SELECT_ACCOUNT: &'static str =
    "SELECT id, name, description, balance FROM accounts WHERE id = ?1";

pub const UPDATE_ACCOUNT: &'static str =
    "UPDATE accounts SET name = ?1, description = ?2, balance = ?3 WHERE id = ?4";

pub const DELETE_ACCOUNT: &'static str = "DELETE FROM accounts WHERE id = ?1";

/// The statement that adds an account. An account without description gets
/// no value in that column; the store gives the row its id.
pub fn create(name: &str, description: Option<&str>, balance: Amount) -> (statement: Statement)
    ensures
        statement@.sql == INSERT_ACCOUNT@,
        statement@.params == seq![
            SqlValueView::Text(name@),
            match description {
                Some(text) => SqlValueView::Text(text@),
                None => SqlValueView::Null,
            },
            SqlValueView::Real(balance),
        ],
{
    let mut params: Vec<SqlValue> = Vec::new();
    params.push(SqlValue::Text(name.to_owned()));
    params.push(optional_text(description));
    params.push(SqlValue::Real(balance));
    let statement = Statement { sql: INSERT_ACCOUNT, params };
    assert(statement@.params =~= seq![
        SqlValueView::Text(name@),
        match description {
            Some(text) => SqlValueView::Text(text@),
            None => SqlValueView::Null,
        },
        SqlValueView::Real(balance),
    ]);
    statement
}

/// The statement that reads every account.
pub fn find_all_query() -> (statement: Statement)
    ensures
        statement@.sql == SELECT_ACCOUNTS@,
        statement@.params == Seq::<SqlValueView>::empty(),
{
    Statement::plain(SELECT_ACCOUNTS)
}

/// The statement that reads the account with the given id.
pub fn find_by_id_query(id: i64) -> (statement: Statement)
    ensures
        statement@.sql == SELECT_ACCOUNT@,
        statement@.params == seq![SqlValueView::Integer(id)],
{
    let mut params: Vec<SqlValue> = Vec::new();
    params.push(SqlValue::Integer(id));
    let statement = Statement { sql: SELECT_ACCOUNT, params };
    assert(statement@.params =~= seq![SqlValueView::Integer(id)]);
    statement
}

/// The statement that replaces name, description and balance of the account
/// with the given id.
pub fn update(id: i64, name: &str, description: Option<&str>, balance: Amount) -> (statement:
    Statement)
    ensures
        statement@.sql == UPDATE_ACCOUNT@,
        statement@.params == seq![
            SqlValueView::Text(name@),
            match description {
                Some(text) => SqlValueView::Text(text@),
                None => SqlValueView::Null,
            },
            SqlValueView::Real(balance),
            SqlValueView::Integer(id),
        ],
{
    let mut params: Vec<SqlValue> = Vec::new();
    params.push(SqlValue::Text(name.to_owned()));
    params.push(optional_text(description));
    params.push(SqlValue::Real(balance));
    params.push(SqlValue::Integer(id));
    let statement = Statement { sql: UPDATE_ACCOUNT, params };
    assert(statement@.params =~= seq![
        SqlValueView::Text(name@),
        match description {
            Some(text) => SqlValueView::Text(text@),
            None => SqlValueView::Null,
        },
        SqlValueView::Real(balance),
        SqlValueView::Integer(id),
    ]);
    statement
}

/// The statement that removes the account with the given id.
pub fn delete(id: i64) -> (statement: Statement)
    ensures
        statement@.sql == DELETE_ACCOUNT@,
        statement@.params == seq![SqlValueView::Integer(id)],
{
    let mut params: Vec<SqlValue> = Vec::new();
    params.push(SqlValue::Integer(id));
    let statement = Statement { sql: DELETE_ACCOUNT, params };
    assert(statement@.params =~= seq![SqlValueView::Integer(id)]);
    statement
}

/// What `find_all` answers, given what came back for [`find_all_query`]:
/// the accounts as they were read, or the kind of the store's failure. A row
/// of `accounts` holds nothing that needs decoding.
pub fn find_all(outcome: Result<Vec<Account>, Failure>) -> (accounts: Result<
    Vec<Account>,
    StoreError,
>)
    ensures
        accounts == match outcome {
            Ok(rows) => Ok::<Vec<Account>, StoreError>(rows),
            Err(failure) => Err::<Vec<Account>, StoreError>(error_of(failure)),
        },
{
    match outcome {
        Ok(rows) => Ok(rows),
        Err(failure) => Err(classify(failure)),
    }
}

/// What `find_by_id` answers, given what came back for
/// [`find_by_id_query`]: the account, not-found where no row has the id, and
/// else the kind of the store's failure.
pub fn find_by_id(outcome: Result<Account, Failure>) -> (account: Result<Account, StoreError>)
    ensures
        account == match outcome {
            Ok(row) => Ok::<Account, StoreError>(row),
            Err(failure) => Err::<Account, StoreError>(error_of(failure)),
        },
{
    match outcome {
        Ok(row) => Ok(row),
        Err(failure) => Err(classify(failure)),
    }
}

} // verus!
