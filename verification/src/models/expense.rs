use crate::amount::Amount;
use crate::timestamp::Timestamp;
use vstd::prelude::*;

verus! {

/// One entry of expense.
#[derive(Debug, PartialEq, Eq)]
pub struct Expense {
    pub id: i64,
    pub description: String,
    pub amount: Amount,
    pub date: Timestamp,
    /// The category the entry belongs to, by its id.
    pub category_id: i64,
}

} // verus!
