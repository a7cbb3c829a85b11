//! Accounts: what is checked before a statement is sent.

use crate::amount::Amount;
use crate::error::{Failure, StoreError, error_of};
use crate::models::account::Account;
use crate::repositories::account_repository;
use crate::repositories::account_repository::{DELETE_ACCOUNT, INSERT_ACCOUNT, UPDATE_ACCOUNT};
use crate::statement::{SqlValueView, Statement};
use vstd::prelude::*;

verus! {

/// Why an account is refused before anything is sent to the store.
#[derive(Clone, Copy, Debug, PartialEq, Eq, Structural)]
pub enum ValidationError {
    /// The name is empty or holds white space only.
    EmptyName,
    /// The opening balance lies below zero.
    NegativeBalance,
}

pub const EMPTY_NAME: &'static str = "Nama akun tidak boleh kosong.";

pub const NEGATIVE_BALANCE: &'static str = "Saldo awal tidak boleh negatif.";

impl ValidationError {
    /// The error in words, as the user is told.
    pub fn message(&self) -> (message: &'static str)
        ensures
            message@ == match *self {
                ValidationError::EmptyName => EMPTY_NAME@,
                ValidationError::NegativeBalance => NEGATIVE_BALANCE@,
            },
    {
        match self {
            ValidationError::EmptyName => EMPTY_NAME,
            ValidationError::NegativeBalance => NEGATIVE_BALANCE,
        }
    }
}

/// Whether `c` is white space: the characters with the Unicode property
/// `White_Space`.
pub open spec fn is_white_space(c: char) -> bool {
    ||| '\u{9}' <= c <= '\u{D}'
    ||| c == ' '
    ||| c == '\u{85}'
    ||| c == '\u{A0}'
    ||| c == '\u{1680}'
    ||| '\u{2000}' <= c <= '\u{200A}'
    ||| c == '\u{2028}'
    ||| c == '\u{2029}'
    ||| c == '\u{202F}'
    ||| c == '\u{205F}'
    ||| c == '\u{3000}'
}

/// Whether a text holds nothing but white space. The empty text does.
pub open spec fn is_blank(text: Seq<char>) -> bool {
    forall|i: int| 0 <= i < text.len() ==> is_white_space(#[trigger] text[i])
}

/// Whether `c` is white space.
pub fn white_space(c: char) -> (white: bool)
    ensures
        white == is_white_space(c),
{
    ('\u{9}' <= c && c <= '\u{D}') || c == ' ' || c == '\u{85}' || c == '\u{A0}' || c
        == '\u{1680}' || ('\u{2000}' <= c && c <= '\u{200A}') || c == '\u{2028}' || c
        == '\u{2029}' || c == '\u{202F}' || c == '\u{205F}' || c == '\u{3000}'
}

/// Whether a text holds nothing but white space.
pub fn blank(text: &str) -> (blank: bool)
    ensures
        blank == is_blank(text@),
{
    let length = text.unicode_len();
    let mut i: usize = 0;
    while i < length
        invariant
            i <= length,
            length == text@.len(),
            forall|j: int| 0 <= j < i ==> is_white_space(#[trigger] text@[j]),
        decreases length - i,
    {
        if !white_space(text.get_char(i)) {
            return false;
        }
        i += 1;
    }
    true
}

/// What is checked of a new account, in this order: the name is not blank,
/// the balance does not lie below zero.
pub open spec fn new_account_check(name: Seq<char>, balance: Amount) -> Option<ValidationError> {
    if is_blank(name) {
        Some(ValidationError::EmptyName)
    } else if balance.negative() {
        Some(ValidationError::NegativeBalance)
    } else {
        None
    }
}

/// The statement that opens an account, or the reason why none is sent: a
/// blank name, or else a balance below zero.
pub fn create_account(name: &str, description: Option<&str>, balance: Amount) -> (statement:
    Result<Statement, ValidationError>)
    ensures
        match new_account_check(name@, balance) {
            Some(error) => statement == Err::<Statement, ValidationError>(error),
            None => statement matches Ok(s) && s@.sql == INSERT_ACCOUNT@ && s@.params == seq![
                SqlValueView::Text(name@),
                match description {
                    Some(text) => SqlValueView::Text(text@),
                    None => SqlValueView::Null,
                },
                SqlValueView::Real(balance),
            ],
        },
{
    if blank(name) {
        return Err(ValidationError::EmptyName);
    }
    if balance.is_negative() {
        return Err(ValidationError::NegativeBalance);
    }
    Ok(account_repository::create(name, description, balance))
}

/// What came back for [`account_repository::find_all_query`], as the answer
/// to "all accounts".
pub fn get_all_accounts(outcome: Result<Vec<Account>, Failure>) -> (accounts: Result<
    Vec<Account>,
    StoreError,
>)
    ensures
        accounts == match outcome {
            Ok(rows) => Ok::<Vec<Account>, StoreError>(rows),
            Err(failure) => Err::<Vec<Account>, StoreError>(error_of(failure)),
        },
{
    account_repository::find_all(outcome)
}

/// What came back for [`account_repository::find_by_id_query`], as the
/// answer to "the account with this id".
pub fn get_account_by_id(outcome: Result<Account, Failure>) -> (account: Result<
    Account,
    StoreError,
>)
    ensures
        account == match outcome {
            Ok(row) => Ok::<Account, StoreError>(row),
            Err(failure) => Err::<Account, StoreError>(error_of(failure)),
        },
{
    account_repository::find_by_id(outcome)
}

/// The statement that replaces name, description and balance of an account,
/// or the reason why none is sent: a blank name. The balance is not checked
/// here.
pub fn update_account(
    id: i64,
    name: &str,
    description: Option<&str>,
    balance: Amount,
) -> (statement: Result<Statement, ValidationError>)
    ensures
        if is_blank(name@) {
            statement == Err::<Statement, ValidationError>(ValidationError::EmptyName)
        } else {
            statement matches Ok(s) && s@.sql == UPDATE_ACCOUNT@ && s@.params == seq![
                SqlValueView::Text(name@),
                match description {
                    Some(text) => SqlValueView::Text(text@),
                    None => SqlValueView::Null,
                },
                SqlValueView::Real(balance),
                SqlValueView::Integer(id),
            ]
        },
{
    if blank(name) {
        return Err(ValidationError::EmptyName);
    }
    Ok(account_repository::update(id, name, description, balance))
}

/// The statement that removes the account with the given id.
pub fn delete_account(id: i64) -> (statement: Statement)
    ensures
        statement@.sql == DELETE_ACCOUNT@,
        statement@.params == seq![SqlValueView::Integer(id)],
{
    account_repository::delete(id)
}

} // verus!
