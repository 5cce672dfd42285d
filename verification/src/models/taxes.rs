//! Taxes: a named rate booked against a ledger account. The rate is a
//! floating-point number at the HTTP boundary; the verified core holds its
//! IEEE 754 bit pattern, and the one floating-point check (the rate must
//! not be negative) happens in the HTTP layer before the core is called.

use vstd::prelude::*;
use crate::models::page::limit_valid;

verus! {

/// A stored tax row; `rate_bits` is the bit pattern of the rate.
pub struct TaxRecord {
    pub id: i32,
    pub name: String,
    pub name_short: String,
    pub rate_bits: u64,
    pub account_id: i32,
}

/// Field-for-field agreement of two tax rows, strings compared by value.
pub open spec fn same_tax(a: TaxRecord, b: TaxRecord) -> bool {
    &&& a.id == b.id
    &&& a.name@ == b.name@
    &&& a.name_short@ == b.name_short@
    &&& a.rate_bits == b.rate_bits
    &&& a.account_id == b.account_id
}

impl Clone for TaxRecord {
    fn clone(&self) -> (r: Self)
        ensures
            same_tax(r, *self),
    {
        TaxRecord {
            id: self.id,
            name: self.name.clone(),
            name_short: self.name_short.clone(),
            rate_bits: self.rate_bits,
            account_id: self.account_id,
        }
    }
}

/// Body of a tax creation request, the rate already as its bit pattern.
pub struct CreateTaxData {
    pub name: String,
    pub name_short: String,
    pub rate_bits: u64,
    pub account_id: i32,
}

impl CreateTaxData {
    /// Both names hold 1 to 32 characters.
    pub open spec fn valid(self) -> bool {
        &&& 1 <= self.name@.len() <= 32
        &&& 1 <= self.name_short@.len() <= 32
    }

    pub fn validate(&self) -> (r: bool)
        ensures
            r == self.valid(),
    {
        crate::utils::text::len_between(self.name.as_str(), 1, 32)
            && crate::utils::text::len_between(self.name_short.as_str(), 1, 32)
    }
}

/// Query parameters of the tax listing.
pub struct ListTaxesInput {
    pub limit: Option<u64>,
    pub offset: Option<u64>,
}

impl ListTaxesInput {
    pub open spec fn valid(self) -> bool {
        limit_valid(self.limit)
    }

    pub fn validate(&self) -> (r: bool)
        ensures
            r == self.valid(),
    {
        crate::models::page::check_limit(&self.limit)
    }
}

} // verus!
