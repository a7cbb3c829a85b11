//! What can go wrong, as closed kinds.
//!
//! The store reports a [`Failure`]; the crate sorts it into a [`StoreError`],
//! which keeps four things apart: the row asked for is not there, a
//! constraint of a table refused a write, a stored value cannot be read back,
//! and the store itself did not answer.

use crate::decimal::decimal_text;
use crate::repositories::category_repository::{InvalidCategoryTypeError, INVALID_CATEGORY_TYPE};
use crate::timestamp::{ParseError, MALFORMED_TIMESTAMP, TIMESTAMP_OUT_OF_RANGE};
use vstd::prelude::*;
use vstd::string::StringExecFns;

verus! {

/// The result code with which the engine reports that a constraint of a
/// table refused a statement. An extended code holds it in its low byte.
pub const CONSTRAINT_CODE: i32 = 19;

/// A failure as the caller reports it, after running a statement.
#[derive(Debug, PartialEq, Eq)]
pub enum Failure {
    /// A query for one row matched none.
    NoRows,
    /// The engine refused the statement; `code` is its extended result code.
    Engine { code: i32, message: String },
    /// The column at `index` holds no value of the type it was read as.
    Column { index: usize, message: String },
    /// Anything else: the store could not be opened, locked or reached.
    Other { message: String },
}

/// The constraint of a table that refused a write.
#[derive(Clone, Copy, Debug, PartialEq, Eq, Structural)]
pub enum Constraint {
    /// A `CHECK` on a column, such as the one on the kind of a category.
    Check,
    /// A reference to a row that is not there.
    ForeignKey,
    /// No value where one is required.
    NotNull,
    /// An id that is taken.
    PrimaryKey,
    /// A value that must be unique and is not.
    Unique,
    /// A constraint of another sort.
    Other,
}

/// A stored value that cannot be read back.
#[derive(Debug, PartialEq, Eq)]
pub enum Corruption {
    /// The kind of a category is neither 1 nor 2.
    CategoryType(InvalidCategoryTypeError),
    /// The date of an entry is no timestamp; `text` is what was stored.
    Date { text: String, error: ParseError },
    /// The column at `index` holds a value of another type.
    Column { index: usize, message: String },
}

/// Why an operation on the store failed.
#[derive(Debug, PartialEq, Eq)]
pub enum StoreError {
    /// No row has the id that was asked for.
    NotFound,
    /// A constraint of the table refused the write.
    Conflict { constraint: Constraint, message: String },
    /// A row was found and cannot be read back.
    Corrupt(Corruption),
    /// The store did not answer.
    Unavailable { message: String },
}

/// Whether an extended result code reports a refused constraint.
pub open spec fn is_constraint_code(code: i32) -> bool {
    code >= 0 && code % 256 == CONSTRAINT_CODE as int
}

/// The constraint that an extended result code names: the code above its low
/// byte numbers the sorts of constraint.
pub open spec fn constraint_of_code(code: i32) -> Constraint {
    let sort = code / 256;
    if sort == 1 {
        Constraint::Check
    } else if sort == 3 {
        Constraint::ForeignKey
    } else if sort == 5 {
        Constraint::NotNull
    } else if sort == 6 {
        Constraint::PrimaryKey
    } else if sort == 8 {
        Constraint::Unique
    } else {
        Constraint::Other
    }
}

/// The kind of error that a failure of the store amounts to.
pub open spec fn error_of(failure: Failure) -> StoreError {
    match failure {
        Failure::NoRows => StoreError::NotFound,
        Failure::Engine { code, message } => if is_constraint_code(code) {
            StoreError::Conflict { constraint: constraint_of_code(code), message }
        } else {
            StoreError::Unavailable { message }
        },
        Failure::Column { index, message } => StoreError::Corrupt(
            Corruption::Column { index, message },
        ),
        Failure::Other { message } => StoreError::Unavailable { message },
    }
}

/// Not-found is told apart from every other failure: a failure is sorted as
/// not-found exactly where the query matched no row, so a store that does
/// not answer is never taken for a missing row, nor a missing row for it.
pub proof fn lemma_not_found_only_without_rows(failure: Failure)
    ensures
        error_of(failure) == StoreError::NotFound <==> failure == Failure::NoRows,
        failure is Other ==> error_of(failure) is Unavailable,
{
}

/// Names the constraint in an extended result code of the engine.
pub fn constraint_in(code: i32) -> (constraint: Option<Constraint>)
    ensures
        constraint == if is_constraint_code(code) {
            Some(constraint_of_code(code))
        } else {
            None
        },
{
    if code < 0 || code % 256 != CONSTRAINT_CODE {
        return None;
    }
    let sort: i32 = code / 256;
    Some(
        if sort == 1 {
            Constraint::Check
        } else if sort == 3 {
            Constraint::ForeignKey
        } else if sort == 5 {
            Constraint::NotNull
        } else if sort == 6 {
            Constraint::PrimaryKey
        } else if sort == 8 {
            Constraint::Unique
        } else {
            Constraint::Other
        },
    )
}

/// Sorts a failure of the store into a kind of error. A missing row is
/// not-found, a refused constraint a conflict, an unreadable column
/// corruption, and all the rest an unavailable store.
pub fn classify(failure: Failure) -> (error: StoreError)
    ensures
        error == error_of(failure),
{
    match failure {
        Failure::NoRows => StoreError::NotFound,
        Failure::Engine { code, message } => match constraint_in(code) {
            Some(constraint) => StoreError::Conflict { constraint, message },
            None => StoreError::Unavailable { message },
        },
        Failure::Column { index, message } => StoreError::Corrupt(
            Corruption::Column { index, message },
        ),
        Failure::Other { message } => StoreError::Unavailable { message },
    }
}

/// The result of a write: whatever number of rows it touched, it succeeded,
/// also where no row had the id; a failure is sorted into its kind.
pub fn written(outcome: Result<usize, Failure>) -> (result: Result<(), StoreError>)
    ensures
        result == match outcome {
            Ok(_) => Ok::<(), StoreError>(()),
            Err(failure) => Err::<(), StoreError>(error_of(failure)),
        },
{
    match outcome {
        Ok(_) => Ok(()),
        Err(failure) => Err(classify(failure)),
    }
}

/// What a caller is told where no row has the id that was asked for.
pub const NOT_FOUND: &'static str = "Query returned no rows";

/// How the message of an unreadable date begins; the reason follows.
pub const INVALID_DATE: &'static str = "Tanggal tidak valid: ";

/// An error in words.
pub open spec fn message_of(error: StoreError) -> Seq<char> {
    match error {
        StoreError::NotFound => NOT_FOUND@,
        StoreError::Conflict { constraint, message } => message@,
        StoreError::Corrupt(Corruption::CategoryType(invalid)) => INVALID_CATEGORY_TYPE@
            + decimal_text(invalid.0 as int),
        StoreError::Corrupt(Corruption::Date { text, error }) => INVALID_DATE@ + match error {
            ParseError::Malformed => MALFORMED_TIMESTAMP@,
            ParseError::OutOfRange => TIMESTAMP_OUT_OF_RANGE@,
        },
        StoreError::Corrupt(Corruption::Column { index, message }) => message@,
        StoreError::Unavailable { message } => message@,
    }
}

impl StoreError {
    /// The error in words, for whoever shows it. What the store said is
    /// passed on as it was said.
    pub fn message(&self) -> (message: String)
        ensures
            message@ == message_of(*self),
    {
        match self {
            StoreError::NotFound => NOT_FOUND.to_owned(),
            StoreError::Conflict { constraint: _, message } => message.clone(),
            StoreError::Corrupt(Corruption::CategoryType(invalid)) => invalid.message(),
            StoreError::Corrupt(Corruption::Date { text: _, error }) => {
                let mut message = INVALID_DATE.to_owned();
                message.append(error.message());
                message
            },
            StoreError::Corrupt(Corruption::Column { index: _, message }) => message.clone(),
            StoreError::Unavailable { message } => message.clone(),
        }
    }
}

} // verus!
