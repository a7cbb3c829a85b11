use vstd::prelude::*;

verus! {

/// The kind of a category. It is stored as a small integer: 1 for income, 2
/// for expense.
#[derive(Clone, Copy, Debug, PartialEq, Eq, Structural)]
pub enum CategoryType {
    Income,
    Expense,
}

impl CategoryType {
    /// The integer under which the kind is stored.
    pub open spec fn code(self) -> i16 {
        match self {
            CategoryType::Income => 1,
            CategoryType::Expense => 2,
        }
    }

    /// The stored form of the kind.
    pub fn encode(self) -> (code: i16)
        ensures
            code == self.code(),
    {
        match self {
            CategoryType::Income => 1,
            CategoryType::Expense => 2,
        }
    }
}

/// A category of incomes or of expenses.
#[derive(Debug, PartialEq, Eq)]
pub struct Category {
    pub id: i64,
    pub name: String,
    pub category_type: CategoryType,
}

} // verus!
