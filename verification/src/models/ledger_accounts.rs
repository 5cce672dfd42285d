//! Ledger accounts: the named buckets of the double-entry scheme.

use vstd::prelude::*;
use vstd::string::StrSliceExecFns;
use crate::models::page::limit_valid;

verus! {

/// A stored ledger-account row.
pub struct LedgerAccountRecord {
    pub id: i32,
    pub account_type: String,
    pub name: String,
}

/// Field-for-field agreement of two account rows, strings compared by value.
pub open spec fn same_ledger_account(a: LedgerAccountRecord, b: LedgerAccountRecord) -> bool {
    &&& a.id == b.id
    &&& a.account_type@ == b.account_type@
    &&& a.name@ == b.name@
}

impl Clone for LedgerAccountRecord {
    fn clone(&self) -> (r: Self)
        ensures
            same_ledger_account(r, *self),
    {
        LedgerAccountRecord {
            id: self.id,
            account_type: self.account_type.clone(),
            name: self.name.clone(),
        }
    }
}

/// The ledger account as presented by the API.
pub struct LedgerAccountModel {
    pub id: i32,
    pub account_type: String,
    pub name: String,
}

impl LedgerAccountModel {
    /// The model presents exactly the fields of the row.
    pub open spec fn describes(self, rec: LedgerAccountRecord) -> bool {
        &&& self.id == rec.id
        &&& self.account_type@ == rec.account_type@
        &&& self.name@ == rec.name@
    }

    pub fn from(rec: &LedgerAccountRecord) -> (m: Self)
        ensures
            m.describes(*rec),
    {
        LedgerAccountModel {
            id: rec.id,
            account_type: rec.account_type.clone(),
            name: rec.name.clone(),
        }
    }
}

/// The four permitted account types.
pub open spec fn account_type_allowed(s: Seq<char>) -> bool {
    ||| s == "asset"@
    ||| s == "liability"@
    ||| s == "income"@
    ||| s == "expense"@
}

pub fn check_account_type(s: &String) -> (r: bool)
    ensures
        r == account_type_allowed(s@),
{
    *s == "asset".to_owned() || *s == "liability".to_owned() || *s == "income".to_owned() || *s
        == "expense".to_owned()
}

/// Body of an account creation request.
pub struct CreateLedgerAccountInput {
    pub account_type: String,
    pub name: String,
}

impl CreateLedgerAccountInput {
    /// Both the type and the name are non-empty.
    pub open spec fn valid(self) -> bool {
        &&& self.account_type@.len() >= 1
        &&& self.name@.len() >= 1
    }

    pub fn validate(&self) -> (r: bool)
        ensures
            r == self.valid(),
    {
        self.account_type.as_str().unicode_len() >= 1 && self.name.as_str().unicode_len() >= 1
    }
}

/// Query parameters of the account listing.
pub struct ListLedgerAccountsInput {
    pub limit: Option<u64>,
    pub offset: Option<u64>,
}

impl ListLedgerAccountsInput {
    pub open spec fn valid(self) -> bool {
        limit_valid(self.limit)
    }

    pub fn validate(&self) -> (r: bool)
        ensures
            r == self.valid(),
    {
        crate::models::page::check_limit(&self.limit)
    }
}

} // verus!
