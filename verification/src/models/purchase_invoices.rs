//! Purchase invoices: bills received from a supplier for a purchase order.

use vstd::prelude::*;
use crate::models::page::limit_valid;

verus! {

/// Lifecycle of a purchase invoice.
#[derive(Clone, Copy, Debug, PartialEq, Eq, Structural)]
pub enum PurchaseInvoiceStatus {
    Draft,
    Finished,
}

/// The name each status is presented under.
pub open spec fn purchase_invoice_status_label(s: PurchaseInvoiceStatus) -> Seq<char> {
    match s {
        PurchaseInvoiceStatus::Draft => "draft"@,
        PurchaseInvoiceStatus::Finished => "finished"@,
    }
}

/// A stored purchase-invoice row; the date is kept in its `YYYY-MM-DD`
/// form.
pub struct PurchaseInvoiceRecord {
    pub id: i32,
    pub reference: String,
    pub date: String,
    pub status: PurchaseInvoiceStatus,
    pub order_id: i32,
    pub supplier_id: i32,
}

/// The purchase invoice as presented by the API, the status spelled out.
pub struct PurchaseInvoiceModel {
    pub id: i32,
    pub reference: String,
    pub date: String,
    pub status: String,
    pub order_id: i32,
    pub supplier_id: i32,
}

impl PurchaseInvoiceModel {
    /// The model presents the fields of the row, the status by its label.
    pub open spec fn describes(self, rec: PurchaseInvoiceRecord) -> bool {
        &&& self.id == rec.id
        &&& self.reference@ == rec.reference@
        &&& self.date@ == rec.date@
        &&& self.status@ == purchase_invoice_status_label(rec.status)
        &&& self.order_id == rec.order_id
        &&& self.supplier_id == rec.supplier_id
    }

    pub fn from(rec: &PurchaseInvoiceRecord) -> (m: Self)
        ensures
            m.describes(*rec),
    {
        let status: &str = match rec.status {
            PurchaseInvoiceStatus::Draft => "draft",
            PurchaseInvoiceStatus::Finished => "finished",
        };
        PurchaseInvoiceModel {
            id: rec.id,
            reference: rec.reference.clone(),
            date: rec.date.clone(),
            status: status.to_owned(),
            order_id: rec.order_id,
            supplier_id: rec.supplier_id,
        }
    }
}

/// Body of a purchase-invoice creation request.
pub struct CreatePurchaseInvoiceInput {
    pub reference: String,
    pub date: String,
    pub order_id: i32,
    pub supplier_id: i32,
}

/// Query parameters of the purchase-invoice listing.
pub struct ListPurchaseInvoiceInput {
    pub limit: Option<u64>,
    pub offset: Option<u64>,
}

impl ListPurchaseInvoiceInput {
    pub open spec fn valid(self) -> bool {
        limit_valid(self.limit)
    }

    pub fn validate(&self) -> (r: bool)
        ensures
            r == self.valid(),
    {
        crate::models::page::check_limit(&self.limit)
    }
}

} // verus!
