//! Ledger detail: the per-action breakdown of a month's income.

use vstd::prelude::*;

verus! {

/// Per-action breakdown of the ledger for one month and income type.
#[derive(Debug, Clone, PartialEq)]
pub struct LedgerDetail {
    pub list: Vec<LedgerDetailItem>,
    pub total: i64,
}

/// One income entry.
#[derive(Debug, Clone, PartialEq)]
pub struct LedgerDetailItem {
    pub action: String,
    pub action_name: String,
    pub time: String,
    pub number: i32,
}

} // verus!
