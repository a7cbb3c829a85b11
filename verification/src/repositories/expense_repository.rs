use crate::amount::Amount;
use crate::error::{classify, error_of, Corruption, Failure, StoreError};
use crate::models::expense::Expense;
use crate::statement::{SqlValue, SqlValueView, Statement};
use crate::timestamp::{parse_timestamp, timestamp_text, Timestamp};
use vstd::prelude::*;

verus! {

pub const INSERT_EXPENSE: &'static str =
    "INSERT INTO expenses (description, amount, date, category_id) VALUES (?1, ?2, ?3, ?4)";

pub const SELECT_EXPENSES: &'static str =
    "SELECT id, description, amount, date, category_id FROM expenses";

pub const SELECT_EXPENSE: &'static str =
    "SELECT id, description, amount, date, category_id FROM expenses WHERE id = ?1";

pub const UPDATE_EXPENSE: &'static str =
    "UPDATE expenses SET description = ?1, amount = ?2, date = ?3, category_id = ?4 WHERE id = ?5";

pub const DELETE_EXPENSE: &'static str = "DELETE FROM expenses WHERE id = ?1";

/// A row of `expenses` as the store hands it back: the columns `id`,
/// `description`, `amount`, `date` and `category_id`, in that order. The date
/// is still the stored text.
#[derive(Debug, PartialEq, Eq)]
pub struct ExpenseRow {
    pub id: i64,
    pub description: String,
    pub amount: Amount,
    pub date: String,
    pub category_id: i64,
}

/// Whether `result` is what reading `row` gives: the entry with the columns
/// of the row and the timestamp that its date writes down, or, where the date
/// is no timestamp, the corruption that holds the stored text and the reason.
pub open spec fn expense_read(row: ExpenseRow, result: Result<Expense, StoreError>) -> bool {
    match parse_timestamp(row.date@) {
        Ok(fields) => {
            &&& result matches Ok(expense)
            &&& expense.id == row.id
            &&& expense.description == row.description
            &&& expense.amount == row.amount
            &&& expense.date@ == fields
            &&& expense.category_id == row.category_id
        },
        Err(error) => result == Err::<Expense, StoreError>(
            StoreError::Corrupt(Corruption::Date { text: row.date, error }),
        ),
    }
}

/// Whether `result` is what reading `rows` gives: all of the entries, in the
/// order of the rows, or the error of the first row that cannot be read. No
/// part of the rows is returned beside an error.
pub open spec fn expenses_read(rows: Seq<ExpenseRow>, result: Result<Vec<Expense>, StoreError>) -> bool {
    match result {
        Ok(expenses) => {
            &&& expenses@.len() == rows.len()
            &&& forall|i: int|
                0 <= i < rows.len() ==> expense_read(
                    #[trigger] rows[i],
                    Ok::<Expense, StoreError>(expenses@[i]),
                )
        },
        Err(error) => exists|i: int|
            {
                &&& 0 <= i < rows.len()
                &&& expense_read(#[trigger] rows[i], Err::<Expense, StoreError>(error))
                &&& forall|j: int| 0 <= j < i ==> parse_timestamp((#[trigger] rows[j]).date@) is Ok
            },
    }
}

/// The statement that adds an entry of expense. The date is bound as its
/// stored text; the store gives the row its id.
pub fn create(description: &str, amount: Amount, date: &Timestamp, category_id: i64) -> (statement:
    Statement)
    ensures
        statement@.sql == INSERT_EXPENSE@,
        statement@.params == seq![
            SqlValueView::Text(description@),
            SqlValueView::Real(amount),
            SqlValueView::Text(timestamp_text(date@)),
            SqlValueView::Integer(category_id),
        ],
{
    let mut params: Vec<SqlValue> = Vec::new();
    params.push(SqlValue::Text(description.to_owned()));
    params.push(SqlValue::Real(amount));
    params.push(SqlValue::Text(date.encode()));
    params.push(SqlValue::Integer(category_id));
    let statement = Statement { sql: INSERT_EXPENSE, params };
    assert(statement@.params =~= seq![
        SqlValueView::Text(description@),
        SqlValueView::Real(amount),
        SqlValueView::Text(timestamp_text(date@)),
        SqlValueView::Integer(category_id),
    ]);
    statement
}

/// The statement that reads every entry of expense.
pub fn find_all_query() -> (statement: Statement)
    ensures
        statement@.sql == SELECT_EXPENSES@,
        statement@.params == Seq::<SqlValueView>::empty(),
{
    Statement::plain(SELECT_EXPENSES)
}

/// The statement that reads the entry with the given id.
pub fn find_by_id_query(id: i64) -> (statement: Statement)
    ensures
        statement@.sql == SELECT_EXPENSE@,
        statement@.params == seq![SqlValueView::Integer(id)],
{
    let mut params: Vec<SqlValue> = Vec::new();
    params.push(SqlValue::Integer(id));
    let statement = Statement { sql: SELECT_EXPENSE, params };
    assert(statement@.params =~= seq![SqlValueView::Integer(id)]);
    statement
}

/// The statement that replaces every column but the id of the entry with
/// the given id.
pub fn update(
    id: i64,
    description: &str,
    amount: Amount,
    date: &Timestamp,
    category_id: i64,
) -> (statement: Statement)
    ensures
        statement@.sql == UPDATE_EXPENSE@,
        statement@.params == seq![
            SqlValueView::Text(description@),
            SqlValueView::Real(amount),
            SqlValueView::Text(timestamp_text(date@)),
            SqlValueView::Integer(category_id),
            SqlValueView::Integer(id),
        ],
{
    let mut params: Vec<SqlValue> = Vec::new();
    params.push(SqlValue::Text(description.to_owned()));
    params.push(SqlValue::Real(amount));
    params.push(SqlValue::Text(date.encode()));
    params.push(SqlValue::Integer(category_id));
    params.push(SqlValue::Integer(id));
    let statement = Statement { sql: UPDATE_EXPENSE, params };
    assert(statement@.params =~= seq![
        SqlValueView::Text(description@),
        SqlValueView::Real(amount),
        SqlValueView::Text(timestamp_text(date@)),
        SqlValueView::Integer(category_id),
        SqlValueView::Integer(id),
    ]);
    statement
}

/// The statement that removes the entry with the given id.
pub fn delete(id: i64) -> (statement: Statement)
    ensures
        statement@.sql == DELETE_EXPENSE@,
        statement@.params == seq![SqlValueView::Integer(id)],
{
    let mut params: Vec<SqlValue> = Vec::new();
    params.push(SqlValue::Integer(id));
    let statement = Statement { sql: DELETE_EXPENSE, params };
    assert(statement@.params =~= seq![SqlValueView::Integer(id)]);
    statement
}

/// Reads one row: decodes its date and keeps the other columns.
pub fn from_row(row: &ExpenseRow) -> (expense: Result<Expense, StoreError>)
    ensures
        expense_read(*row, expense),
{
    match Timestamp::decode(row.date.as_str()) {
        Ok(date) => Ok(
            Expense {
                id: row.id,
                description: row.description.clone(),
                amount: row.amount,
                date,
                category_id: row.category_id,
            },
        ),
        Err(error) => Err(StoreError::Corrupt(Corruption::Date { text: row.date.clone(), error })),
    }
}

/// Reads all rows, or none: the first row that cannot be read fails the
/// whole.
pub fn from_rows(rows: Vec<ExpenseRow>) -> (expenses: Result<Vec<Expense>, StoreError>)
    ensures
        expenses_read(rows@, expenses),
{
    let mut expenses: Vec<Expense> = Vec::new();
    let mut i: usize = 0;
    while i < rows.len()
        invariant
            i <= rows.len(),
            expenses@.len() == i,
            forall|j: int|
                0 <= j < i ==> expense_read(#[trigger] rows@[j], Ok::<Expense, StoreError>(expenses@[j])),
        decreases rows.len() - i,
    {
        match from_row(&rows[i]) {
            Ok(expense) => expenses.push(expense),
            Err(error) => {
                return Err(error);
            },
        }
        i += 1;
    }
    Ok(expenses)
}

/// What `find_all` answers, given what came back for [`find_all_query`]:
/// every entry, or the error of the first unreadable row, or the kind of the
/// store's failure.
pub fn find_all(outcome: Result<Vec<ExpenseRow>, Failure>) -> (expenses: Result<
    Vec<Expense>,
    StoreError,
>)
    ensures
        match outcome {
            Ok(rows) => expenses_read(rows@, expenses),
            Err(failure) => expenses == Err::<Vec<Expense>, StoreError>(error_of(failure)),
        },
{
    match outcome {
        Ok(rows) => from_rows(rows),
        Err(failure) => Err(classify(failure)),
    }
}

/// What `find_by_id` answers, given what came back for
/// [`find_by_id_query`]: the entry of the row, not-found where no row has the
/// id, corruption where the row cannot be read, and else the kind of the
/// store's failure.
pub fn find_by_id(outcome: Result<ExpenseRow, Failure>) -> (expense: Result<Expense, StoreError>)
    ensures
        match outcome {
            Ok(row) => expense_read(row, expense),
            Err(failure) => expense == Err::<Expense, StoreError>(error_of(failure)),
        },
{
    match outcome {
        Ok(row) => from_row(&row),
        Err(failure) => Err(classify(failure)),
    }
}

} // verus!
