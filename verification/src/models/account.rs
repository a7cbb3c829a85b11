use crate::amount::Amount;
use vstd::prelude::*;

verus! {

/// An account: a wallet, a bank account.
#[derive(Debug, PartialEq, Eq)]
pub struct Account {
    pub id: i64,
    pub name: String,
    /// Free text; an account may have none.
    pub description: Option<String>,
    pub balance: Amount,
}

} // verus!
