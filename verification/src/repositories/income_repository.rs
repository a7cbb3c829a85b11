use crate::amount::Amount;
use crate::error::{classify, error_of, Corruption, Failure, StoreError};
use crate::models::income::Income;
use crate::statement::{SqlValue, SqlValueView, Statement};
use crate::timestamp::{parse_timestamp, timestamp_text, Timestamp};
use vstd::prelude::*;

verus! {

pub const INSERT_INCOME: &'static str =
    "INSERT INTO income (description, amount, date, category_id) VALUES (?1, ?2, ?3, ?4)";

pub const SELECT_INCOMES: &'static str =
    "SELECT id, description, amount, date, category_id FROM income";

pub const SELECT_INCOME: &'static str =
    "SELECT id, description, amount, date, category_id FROM income WHERE id = ?1";

pub const UPDATE_INCOME: &'static str =
    "UPDATE income SET description = ?1, amount = ?2, date = ?3, category_id = ?4 WHERE id = ?5";

pub const DELETE_INCOME: &'static str = "DELETE FROM income WHERE id = ?1";

/// A row of `income` as the store hands it back: the columns `id`,
/// `description`, `amount`, `date` and `category_id`, in that order. The date
/// is still the stored text.
#[derive(Debug, PartialEq, Eq)]
pub struct IncomeRow {
    pub id: i64,
    pub description: String,
    pub amount: Amount,
    pub date: String,
    pub category_id: i64,
}

/// Whether `result` is what reading `row` gives: the entry with the columns
/// of the row and the timestamp that its date writes down, or, where the date
/// is no timestamp, the corruption that holds the stored text and the reason.
pub open spec fn income_read(row: IncomeRow, result: Result<Income, StoreError>) -> bool {
    match parse_timestamp(row.date@) {
        Ok(fields) => {
            &&& result matches Ok(income)
            &&& income.id == row.id
            &&& income.description == row.description
            &&& income.amount == row.amount
            &&& income.date@ == fields
            &&& income.category_id == row.category_id
        },
        Err(error) => result == Err::<Income, StoreError>(
            StoreError::Corrupt(Corruption::Date { text: row.date, error }),
        ),
    }
}

/// Whether `result` is what reading `rows` gives: all of the entries, in the
/// order of the rows, or the error of the first row that cannot be read. No
/// part of the rows is returned beside an error.
pub open spec fn incomes_read(rows: Seq<IncomeRow>, result: Result<Vec<Income>, StoreError>) -> bool {
    match result {
        Ok(incomes) => {
            &&& incomes@.len() == rows.len()
            &&& forall|i: int|
                0 <= i < rows.len() ==> income_read(
                    #[trigger] rows[i],
                    Ok::<Income, StoreError>(incomes@[i]),
                )
        },
        Err(error) => exists|i: int|
            {
                &&& 0 <= i < rows.len()
                &&& income_read(#[trigger] rows[i], Err::<Income, StoreError>(error))
                &&& forall|j: int| 0 <= j < i ==> parse_timestamp((#[trigger] rows[j]).date@) is Ok
            },
    }
}

/// The statement that adds an entry of income. The date is bound as its
/// stored text; the store gives the row its id.
pub fn create(description: &str, amount: Amount, date: &Timestamp, category_id: i64) -> (statement:
    Statement)
    ensures
        statement@.sql == INSERT_INCOME@,
        statement@.params == seq![
            SqlValueView::Text(description@),
            SqlValueView::Real(amount),
            SqlValueView::Text(timestamp_text(date@)),
            SqlValueView::Integer(category_id),
        ],
{
    let mut params: Vec<SqlValue> = Vec::new();
    params.push(SqlValue::Text(description.to_owned()));
    params.push(SqlValue::Real(amount));
    params.push(SqlValue::Text(date.encode()));
    params.push(SqlValue::Integer(category_id));
    let statement = Statement { sql: INSERT_INCOME, params };
    assert(statement@.params =~= seq![
        SqlValueView::Text(description@),
        SqlValueView::Real(amount),
        SqlValueView::Text(timestamp_text(date@)),
        SqlValueView::Integer(category_id),
    ]);
    statement
}

/// The statement that reads every entry of income.
pub fn find_all_query() -> (statement: Statement)
    ensures
        statement@.sql == SELECT_INCOMES@,
        statement@.params == Seq::<SqlValueView>::empty(),
{
    Statement::plain(SELECT_INCOMES)
}

/// The statement that reads the entry with the given id.
pub fn find_by_id_query(id: i64) -> (statement: Statement)
    ensures
        statement@.sql == SELECT_INCOME@,
        statement@.params == seq![SqlValueView::Integer(id)],
{
    let mut params: Vec<SqlValue> = Vec::new();
    params.push(SqlValue::Integer(id));
    let statement = Statement { sql: SELECT_INCOME, params };
    assert(statement@.params =~= seq![SqlValueView::Integer(id)]);
    statement
}

/// The statement that replaces every column but the id of the entry with
/// the given id.
pub fn update(
    id: i64,
    description: &str,
    amount: Amount,
    date: &Timestamp,
    category_id: i64,
) -> (statement: Statement)
    ensures
        statement@.sql == UPDATE_INCOME@,
        statement@.params == seq![
            SqlValueView::Text(description@),
            SqlValueView::Real(amount),
            SqlValueView::Text(timestamp_text(date@)),
            SqlValueView::Integer(category_id),
            SqlValueView::Integer(id),
        ],
{
    let mut params: Vec<SqlValue> = Vec::new();
    params.push(SqlValue::Text(description.to_owned()));
    params.push(SqlValue::Real(amount));
    params.push(SqlValue::Text(date.encode()));
    params.push(SqlValue::Integer(category_id));
    params.push(SqlValue::Integer(id));
    let statement = Statement { sql: UPDATE_INCOME, params };
    assert(statement@.params =~= seq![
        SqlValueView::Text(description@),
        SqlValueView::Real(amount),
        SqlValueView::Text(timestamp_text(date@)),
        SqlValueView::Integer(category_id),
        SqlValueView::Integer(id),
    ]);
    statement
}

/// The statement that removes the entry with the given id.
pub fn delete(id: i64) -> (statement: Statement)
    ensures
        statement@.sql == DELETE_INCOME@,
        statement@.params == seq![SqlValueView::Integer(id)],
{
    let mut params: Vec<SqlValue> = Vec::new();
    params.push(SqlValue::Integer(id));
    let statement = Statement { sql: DELETE_INCOME, params };
    assert(statement@.params =~= seq![SqlValueView::Integer(id)]);
    statement
}

/// Reads one row: decodes its date and keeps the other columns.
pub fn from_row(row: &IncomeRow) -> (income: Result<Income, StoreError>)
    ensures
        income_read(*row, income),
{
    match Timestamp::decode(row.date.as_str()) {
        Ok(date) => Ok(
            Income {
                id: row.id,
                description: row.description.clone(),
                amount: row.amount,
                date,
                category_id: row.category_id,
            },
        ),
        Err(error) => Err(StoreError::Corrupt(Corruption::Date { text: row.date.clone(), error })),
    }
}

/// Reads all rows, or none: the first row that cannot be read fails the
/// whole.
pub fn from_rows(rows: Vec<IncomeRow>) -> (incomes: Result<Vec<Income>, StoreError>)
    ensures
        incomes_read(rows@, incomes),
{
    let mut incomes: Vec<Income> = Vec::new();
    let mut i: usize = 0;
    while i < rows.len()
        invariant
            i <= rows.len(),
            incomes@.len() == i,
            forall|j: int|
                0 <= j < i ==> income_read(#[trigger] rows@[j], Ok::<Income, StoreError>(incomes@[j])),
        decreases rows.len() - i,
    {
        match from_row(&rows[i]) {
            Ok(income) => incomes.push(income),
            Err(error) => {
                return Err(error);
            },
        }
        i += 1;
    }
    Ok(incomes)
}

/// What `find_all` answers, given what came back for [`find_all_query`]:
/// every entry, or the error of the first unreadable row, or the kind of the
/// store's failure.
pub fn find_all(outcome: Result<Vec<IncomeRow>, Failure>) -> (incomes: Result<
    Vec<Income>,
    StoreError,
>)
    ensures
        match outcome {
            Ok(rows) => incomes_read(rows@, incomes),
            Err(failure) => incomes == Err::<Vec<Income>, StoreError>(error_of(failure)),
        },
{
    match outcome {
        Ok(rows) => from_rows(rows),
        Err(failure) => Err(classify(failure)),
    }
}

/// What `find_by_id` answers, given what came back for
/// [`find_by_id_query`]: the entry of the row, not-found where no row has the
/// id, corruption where the row cannot be read, and else the kind of the
/// store's failure.
pub fn find_by_id(outcome: Result<IncomeRow, Failure>) -> (income: Result<Income, StoreError>)
    ensures
        match outcome {
            Ok(row) => income_read(row, income),
            Err(failure) => income == Err::<Income, StoreError>(error_of(failure)),
        },
{
    match outcome {
        Ok(row) => from_row(&row),
        Err(failure) => Err(classify(failure)),
    }
}

} // verus!
