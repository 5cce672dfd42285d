//! Stocks: named inventory locations, either the company's own or owned by
//! a contact.

use vstd::prelude::*;
use vstd::string::StrSliceExecFns;

verus! {

/// A stored stock row.
pub struct StockRecord {
    pub id: i32,
    pub name: String,
    pub is_own: bool,
    pub owner_id: Option<i32>,
}

/// Field-for-field agreement of two stock rows, strings compared by value.
pub open spec fn same_stock(a: StockRecord, b: StockRecord) -> bool {
    &&& a.id == b.id
    &&& a.name@ == b.name@
    &&& a.is_own == b.is_own
    &&& a.owner_id == b.owner_id
}

impl Clone for StockRecord {
    fn clone(&self) -> (r: Self)
        ensures
            same_stock(r, *self),
    {
        StockRecord {
            id: self.id,
            name: self.name.clone(),
            is_own: self.is_own,
            owner_id: self.owner_id,
        }
    }
}

/// The stock as presented by the API.
pub struct StockModel {
    pub id: i32,
    pub name: String,
    pub is_own: bool,
    pub owner_id: Option<i32>,
}

impl StockModel {
    /// The model presents exactly the fields of the row.
    pub open spec fn describes(self, rec: StockRecord) -> bool {
        &&& self.id == rec.id
        &&& self.name@ == rec.name@
        &&& self.is_own == rec.is_own
        &&& self.owner_id == rec.owner_id
    }

    pub fn from(rec: &StockRecord) -> (m: Self)
        ensures
            m.describes(*rec),
    {
        StockModel {
            id: rec.id,
            name: rec.name.clone(),
            is_own: rec.is_own,
            owner_id: rec.owner_id,
        }
    }
}

/// Body of a stock creation request.
pub struct CreateStockInput {
    pub name: String,
}

impl CreateStockInput {
    /// The name is non-empty.
    pub open spec fn valid(self) -> bool {
        self.name@.len() >= 1
    }

    pub fn validate(&self) -> (r: bool)
        ensures
            r == self.valid(),
    {
        self.name.as_str().unicode_len() >= 1
    }
}

} // verus!
