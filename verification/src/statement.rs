//! Statements for the store, as values.
//!
//! The crate never talks to the store. An operation is planned as a
//! [`Statement`]: the text to run and the values to bind to its numbered
//! parameters, `?1` first. The caller runs it and reports what came back.

use crate::amount::Amount;
use vstd::prelude::*;

verus! {

/// A value bound to a parameter of a statement.
#[derive(Debug, PartialEq)]
pub enum SqlValue {
    /// No value.
    Null,
    /// A whole number.
    Integer(i64),
    /// A double-precision number.
    Real(Amount),
    /// A text.
    Text(String),
}

/// A bound value, its text taken as a sequence of characters.
pub enum SqlValueView {
    Null,
    Integer(i64),
    Real(Amount),
    Text(Seq<char>),
}

impl View for SqlValue {
    type V = SqlValueView;

    open spec fn view(&self) -> SqlValueView {
        match *self {
            SqlValue::Null => SqlValueView::Null,
            SqlValue::Integer(i) => SqlValueView::Integer(i),
            SqlValue::Real(a) => SqlValueView::Real(a),
            SqlValue::Text(s) => SqlValueView::Text(s@),
        }
    }
}

/// A statement to run: its text, and the values of `?1`, `?2` and so on, in
/// that order.
#[derive(Debug, PartialEq)]
pub struct Statement {
    pub sql: &'static str,
    pub params: Vec<SqlValue>,
}

/// A statement as mathematics: the characters of its text and the views of
/// its bound values.
pub struct StatementView {
    pub sql: Seq<char>,
    pub params: Seq<SqlValueView>,
}

impl View for Statement {
    type V = StatementView;

    open spec fn view(&self) -> StatementView {
        StatementView {
            sql: self.sql@,
            params: Seq::new(self.params@.len(), |i: int| self.params@[i]@),
        }
    }
}

impl Statement {
    /// A statement without parameters.
    pub fn plain(sql: &'static str) -> (statement: Statement)
        ensures
            statement@.sql == sql@,
            statement@.params == Seq::<SqlValueView>::empty(),
    {
        Statement { sql, params: Vec::new() }
    }
}

/// An optional text as a bound value: no text is no value.
pub fn optional_text(text: Option<&str>) -> (value: SqlValue)
    ensures
        value@ == match text {
            Some(t) => SqlValueView::Text(t@),
            None => SqlValueView::Null,
        },
{
    match text {
        Some(t) => SqlValue::Text(t.to_owned()),
        None => SqlValue::Null,
    }
}

} // verus!
