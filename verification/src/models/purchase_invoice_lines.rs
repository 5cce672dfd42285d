//! Purchase-invoice lines. The line rows carry a floating-point quantity
//! and are handled outside the verified core; only the listing parameters
//! live here.

use vstd::prelude::*;
use crate::models::page::limit_valid;

verus! {

/// Query parameters of the purchase-invoice-line listing.
pub struct ListPurchaseInvoiceLinesInput {
    pub limit: Option<u64>,
    pub offset: Option<u64>,
}

impl ListPurchaseInvoiceLinesInput {
    pub open spec fn valid(self) -> bool {
        limit_valid(self.limit)
    }

    pub fn validate(&self) -> (r: bool)
        ensures
            r == self.valid(),
    {
        crate::models::page::check_limit(&self.limit)
    }
}

} // verus!
