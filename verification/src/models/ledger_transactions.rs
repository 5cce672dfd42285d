//! Ledger transactions: an amount moved on a date from a credit account to
//! a debit account.

use vstd::prelude::*;
use crate::models::page::limit_valid;
use crate::utils::text::date_shape;

verus! {

/// A stored ledger-transaction row; the date is kept in its `YYYY-MM-DD`
/// form.
pub struct LedgerTransactionRecord {
    pub id: i32,
    pub debit_account_id: i32,
    pub credit_account_id: i32,
    pub date: String,
    pub amount: i32,
}

/// Field-for-field agreement of two transaction rows, strings compared by
/// value.
pub open spec fn same_ledger_transaction(
    a: LedgerTransactionRecord,
    b: LedgerTransactionRecord,
) -> bool {
    &&& a.id == b.id
    &&& a.debit_account_id == b.debit_account_id
    &&& a.credit_account_id == b.credit_account_id
    &&& a.date@ == b.date@
    &&& a.amount == b.amount
}

impl Clone for LedgerTransactionRecord {
    fn clone(&self) -> (r: Self)
        ensures
            same_ledger_transaction(r, *self),
    {
        LedgerTransactionRecord {
            id: self.id,
            debit_account_id: self.debit_account_id,
            credit_account_id: self.credit_account_id,
            date: self.date.clone(),
            amount: self.amount,
        }
    }
}

/// The transaction as presented by the API.
pub struct LedgerTransactionModel {
    pub id: i32,
    pub debit_account_id: i32,
    pub credit_account_id: i32,
    pub date: String,
    pub amount: i32,
}

impl LedgerTransactionModel {
    /// The model presents exactly the fields of the row.
    pub open spec fn describes(self, rec: LedgerTransactionRecord) -> bool {
        &&& self.id == rec.id
        &&& self.debit_account_id == rec.debit_account_id
        &&& self.credit_account_id == rec.credit_account_id
        &&& self.date@ == rec.date@
        &&& self.amount == rec.amount
    }

    pub fn from(rec: &LedgerTransactionRecord) -> (m: Self)
        ensures
            m.describes(*rec),
    {
        LedgerTransactionModel {
            id: rec.id,
            debit_account_id: rec.debit_account_id,
            credit_account_id: rec.credit_account_id,
            date: rec.date.clone(),
            amount: rec.amount,
        }
    }
}

/// Body of a transaction creation request.
pub struct CreateLedgerTransactionInput {
    pub debit_account_id: i32,
    pub credit_account_id: i32,
    pub date: String,
    pub amount: i32,
}

impl CreateLedgerTransactionInput {
    /// Both account ids and the amount are positive, and the date has the
    /// `YYYY-MM-DD` shape.
    pub open spec fn valid(self) -> bool {
        &&& self.debit_account_id >= 1
        &&& self.credit_account_id >= 1
        &&& self.amount >= 1
        &&& date_shape(self.date@)
    }

    pub fn validate(&self) -> (r: bool)
        ensures
            r == self.valid(),
    {
        self.debit_account_id >= 1 && self.credit_account_id >= 1 && self.amount >= 1
            && crate::utils::text::check_date_shape(self.date.as_str())
    }
}

/// Query parameters of the transaction listing: the account whose
/// transactions are asked for, and the page.
pub struct ListLedgerTransactionsInput {
    pub account_id: i32,
    pub limit: Option<u64>,
    pub offset: Option<u64>,
}

impl ListLedgerTransactionsInput {
    pub open spec fn valid(self) -> bool {
        limit_valid(self.limit)
    }

    pub fn validate(&self) -> (r: bool)
        ensures
            r == self.valid(),
    {
        crate::models::page::check_limit(&self.limit)
    }
}

} // verus!
