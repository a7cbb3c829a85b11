use crate::decimal::{decimal_text, push_decimal};
use crate::error::{classify, error_of, Corruption, Failure, StoreError};
use crate::models::category::{Category, CategoryType};
use crate::statement::{SqlValue, SqlValueView, Statement};
use vstd::prelude::*;
use vstd::std_specs::convert::TryFromSpecImpl;

verus! {

/// A stored kind of category that is neither 1 nor 2. It keeps the integer
/// that was found.
#[derive(Clone, Copy, Debug, PartialEq, Eq, Structural)]
pub struct InvalidCategoryTypeError(pub i16);

/// How the message of an [`InvalidCategoryTypeError`] begins; the integer
/// follows in decimal.
pub const INVALID_CATEGORY_TYPE: &'static str = "Nilai tidak valid untuk CategoryType: ";

impl InvalidCategoryTypeError {
    /// The integer that is no kind of category.
    pub fn value(&self) -> (value: i16)
        ensures
            value == self.0,
    {
        self.0
    }

    /// The error in words: a fixed beginning, then the integer in decimal.
    pub fn message(&self) -> (message: String)
        ensures
            message@ == INVALID_CATEGORY_TYPE@ + decimal_text(self.0 as int),
    {
        let mut message = INVALID_CATEGORY_TYPE.to_owned();
        push_decimal(&mut message, self.0);
        message
    }
}

/// The kind that a stored integer stands for: 1 is income, 2 is expense, and
/// any other integer is an error that holds it.
pub open spec fn category_type_of(value: i16) -> Result<CategoryType, InvalidCategoryTypeError> {
    if value == 1 {
        Ok(CategoryType::Income)
    } else if value == 2 {
        Ok(CategoryType::Expense)
    } else {
        Err(InvalidCategoryTypeError(value))
    }
}

impl TryFrom<i16> for CategoryType {
    type Error = InvalidCategoryTypeError;

    fn try_from(value: i16) -> (kind: Result<Self, Self::Error>)
    {
        match value {
            1 => Ok(CategoryType::Income),
            2 => Ok(CategoryType::Expense),
            _ => Err(InvalidCategoryTypeError(value)),
        }
    }
}

impl TryFromSpecImpl<i16> for CategoryType {
    open spec fn obeys_try_from_spec() -> bool {
        true
    }

    open spec fn try_from_spec(value: i16) -> Result<Self, Self::Error> {
        category_type_of(value)
    }
}

/// Every kind survives being stored and read back: for each kind `kind`,
/// the integer it is stored as stands for `kind` again.
pub proof fn lemma_category_type_round_trip(kind: CategoryType)
    ensures
        category_type_of(kind.code()) == Ok::<CategoryType, InvalidCategoryTypeError>(kind),
{
}

/// An integer that is neither 1 nor 2 stands for no kind, and the error
/// holds that very integer.
pub proof fn lemma_category_type_out_of_range(value: i16)
    requires
        value != 1,
        value != 2,
    ensures
        category_type_of(value) == Err::<CategoryType, InvalidCategoryTypeError>(
            InvalidCategoryTypeError(value),
        ),
{
}

pub const INSERT_CATEGORY: &'static str =
    "INSERT INTO categories (name, category_type) VALUES (?1, ?2)";

pub const SELECT_CATEGORIES: &'static str = "SELECT id, name, category_type FROM categories";

pub const SELECT_CATEGORY: &'static str =
    "SELECT id, name, category_type FROM categories WHERE id = ?1";

pub const UPDATE_CATEGORY: &'static str =
    "UPDATE categories SET name = ?1, category_type = ?2 WHERE id = ?3";

pub const DELETE_CATEGORY: &'static str = "DELETE FROM categories WHERE id = ?1";

/// A row of `categories` as the store hands it back: the columns `id`,
/// `name` and `category_type`, in that order.
#[derive(Debug, PartialEq, Eq)]
pub struct CategoryRow {
    pub id: i64,
    pub name: String,
    pub category_type: i16,
}

/// The category that a row holds, or the corruption that keeps it from
/// being read.
pub open spec fn category_of(row: CategoryRow) -> Result<Category, StoreError> {
    match category_type_of(row.category_type) {
        Ok(kind) => Ok(Category { id: row.id, name: row.name, category_type: kind }),
        Err(error) => Err(StoreError::Corrupt(Corruption::CategoryType(error))),
    }
}

/// What reading a sequence of rows gives: all of the categories, in the
/// order of the rows, or the error of the first row that cannot be read.
/// No part of the rows is returned beside an error.
pub open spec fn categories_read(
    rows: Seq<CategoryRow>,
    result: Result<Vec<Category>, StoreError>,
) -> bool {
    match result {
        Ok(categories) => {
            &&& categories@.len() == rows.len()
            &&& forall|i: int|
                0 <= i < rows.len() ==> category_of(#[trigger] rows[i]) == Ok::<
                    Category,
                    StoreError,
                >(categories@[i])
        },
        Err(error) => exists|i: int|
            {
                &&& 0 <= i < rows.len()
                &&& category_of(#[trigger] rows[i]) == Err::<Category, StoreError>(error)
                &&& forall|j: int| 0 <= j < i ==> category_of(#[trigger] rows[j]) is Ok
            },
    }
}

/// The statement that adds a category. The store gives the row its id.
pub fn create(name: &str, category_type: CategoryType) -> (statement: Statement)
    ensures
        statement@.sql == INSERT_CATEGORY@,
        statement@.params == seq![
            SqlValueView::Text(name@),
            SqlValueView::Integer(category_type.code() as i64),
        ],
{
    let mut params: Vec<SqlValue> = Vec::new();
    params.push(SqlValue::Text(name.to_owned()));
    params.push(SqlValue::Integer(category_type.encode() as i64));
    let statement = Statement { sql: INSERT_CATEGORY, params };
    assert(statement@.params =~= seq![
        SqlValueView::Text(name@),
        SqlValueView::Integer(category_type.code() as i64),
    ]);
    statement
}

/// The statement that reads every category.
pub fn find_all_query() -> (statement: Statement)
    ensures
        statement@.sql == SELECT_CATEGORIES@,
        statement@.params == Seq::<SqlValueView>::empty(),
{
    Statement::plain(SELECT_CATEGORIES)
}

/// The statement that reads the category with the given id.
pub fn find_by_id_query(id: i64) -> (statement: Statement)
    ensures
        statement@.sql == SELECT_CATEGORY@,
        statement@.params == seq![SqlValueView::Integer(id)],
{
    let mut params: Vec<SqlValue> = Vec::new();
    params.push(SqlValue::Integer(id));
    let statement = Statement { sql: SELECT_CATEGORY, params };
    assert(statement@.params =~= seq![SqlValueView::Integer(id)]);
    statement
}

/// The statement that replaces name and kind of the category with the given
/// id.
pub fn update(id: i64, name: &str, category_type: CategoryType) -> (statement: Statement)
    ensures
        statement@.sql == UPDATE_CATEGORY@,
        statement@.params == seq![
            SqlValueView::Text(name@),
            SqlValueView::Integer(category_type.code() as i64),
            SqlValueView::Integer(id),
        ],
{
    let mut params: Vec<SqlValue> = Vec::new();
    params.push(SqlValue::Text(name.to_owned()));
    params.push(SqlValue::Integer(category_type.encode() as i64));
    params.push(SqlValue::Integer(id));
    let statement = Statement { sql: UPDATE_CATEGORY, params };
    assert(statement@.params =~= seq![
        SqlValueView::Text(name@),
        SqlValueView::Integer(category_type.code() as i64),
        SqlValueView::Integer(id),
    ]);
    statement
}

/// The statement that removes the category with the given id, and nothing
/// else: entries that refer to it stay.
pub fn delete(id: i64) -> (statement: Statement)
    ensures
        statement@.sql == DELETE_CATEGORY@,
        statement@.params == seq![SqlValueView::Integer(id)],
{
    let mut params: Vec<SqlValue> = Vec::new();
    params.push(SqlValue::Integer(id));
    let statement = Statement { sql: DELETE_CATEGORY, params };
    assert(statement@.params =~= seq![SqlValueView::Integer(id)]);
    statement
}

/// Reads one row.
pub fn from_row(row: &CategoryRow) -> (category: Result<Category, StoreError>)
    ensures
        category == category_of(*row),
{
    match CategoryType::try_from(row.category_type) {
        Ok(kind) => Ok(Category { id: row.id, name: row.name.clone(), category_type: kind }),
        Err(error) => Err(StoreError::Corrupt(Corruption::CategoryType(error))),
    }
}

/// Reads all rows, or none: the first row that cannot be read fails the
/// whole.
pub fn from_rows(rows: Vec<CategoryRow>) -> (categories: Result<Vec<Category>, StoreError>)
    ensures
        categories_read(rows@, categories),
{
    let mut categories: Vec<Category> = Vec::new();
    let mut i: usize = 0;
    while i < rows.len()
        invariant
            i <= rows.len(),
            categories@.len() == i,
            forall|j: int|
                0 <= j < i ==> category_of(#[trigger] rows@[j]) == Ok::<Category, StoreError>(
                    categories@[j],
                ),
        decreases rows.len() - i,
    {
        match from_row(&rows[i]) {
            Ok(category) => categories.push(category),
            Err(error) => {
                return Err(error);
            },
        }
        i += 1;
    }
    Ok(categories)
}

/// What `find_all` answers, given what came back for [`find_all_query`]:
/// every category, or the error of the first unreadable row, or the kind of
/// the store's failure.
pub fn find_all(outcome: Result<Vec<CategoryRow>, Failure>) -> (categories: Result<
    Vec<Category>,
    StoreError,
>)
    ensures
        match outcome {
            Ok(rows) => categories_read(rows@, categories),
            Err(failure) => categories == Err::<Vec<Category>, StoreError>(error_of(failure)),
        },
{
    match outcome {
        Ok(rows) => from_rows(rows),
        Err(failure) => Err(classify(failure)),
    }
}

/// What `find_by_id` answers, given what came back for
/// [`find_by_id_query`]: the category of the row, not-found where no row has
/// the id, corruption where the row cannot be read, and else the kind of the
/// store's failure.
pub fn find_by_id(outcome: Result<CategoryRow, Failure>) -> (category: Result<
    Category,
    StoreError,
>)
    ensures
        category == match outcome {
            Ok(row) => category_of(row),
            Err(failure) => Err::<Category, StoreError>(error_of(failure)),
        },
{
    match outcome {
        Ok(row) => from_row(&row),
        Err(failure) => Err(classify(failure)),
    }
}

} // verus!
