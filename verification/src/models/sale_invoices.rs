//! Sale invoices: bills issued to a customer for a sale order.

use vstd::prelude::*;
use crate::models::page::limit_valid;

verus! {

/// Lifecycle of a sale invoice.
#[derive(Clone, Copy, Debug, PartialEq, Eq, Structural)]
pub enum SaleInvoiceStatus {
    Draft,
    Proforma,
    Invoice,
    Finished,
}

/// The name each status is presented under.
pub open spec fn sale_invoice_status_label(s: SaleInvoiceStatus) -> Seq<char> {
    match s {
        SaleInvoiceStatus::Draft => "draft"@,
        SaleInvoiceStatus::Proforma => "proforma"@,
        SaleInvoiceStatus::Invoice => "invoice"@,
        SaleInvoiceStatus::Finished => "finished"@,
    }
}

/// A stored sale-invoice row; the date is kept in its `YYYY-MM-DD` form.
pub struct SaleInvoiceRecord {
    pub id: i32,
    pub reference: String,
    pub date: String,
    pub status: SaleInvoiceStatus,
    pub order_id: i32,
    pub customer_id: i32,
}

/// The sale invoice as presented by the API, the status spelled out.
pub struct SaleInvoiceModel {
    pub id: i32,
    pub reference: String,
    pub date: String,
    pub status: String,
    pub order_id: i32,
    pub customer_id: i32,
}

impl SaleInvoiceModel {
    /// The model presents the fields of the row, the status by its label.
    pub open spec fn describes(self, rec: SaleInvoiceRecord) -> bool {
        &&& self.id == rec.id
        &&& self.reference@ == rec.reference@
        &&& self.date@ == rec.date@
        &&& self.status@ == sale_invoice_status_label(rec.status)
        &&& self.order_id == rec.order_id
        &&& self.customer_id == rec.customer_id
    }

    pub fn from(rec: &SaleInvoiceRecord) -> (m: Self)
        ensures
            m.describes(*rec),
    {
        let status: &str = match rec.status {
            SaleInvoiceStatus::Draft => "draft",
            SaleInvoiceStatus::Proforma => "proforma",
            SaleInvoiceStatus::Invoice => "invoice",
            SaleInvoiceStatus::Finished => "finished",
        };
        SaleInvoiceModel {
            id: rec.id,
            reference: rec.reference.clone(),
            date: rec.date.clone(),
            status: status.to_owned(),
            order_id: rec.order_id,
            customer_id: rec.customer_id,
        }
    }
}

/// Body of a sale-invoice creation request.
pub struct CreateSaleInvoiceInput {
    pub reference: String,
    pub date: String,
    pub order_id: i32,
    pub customer_id: i32,
}

/// Query parameters of the sale-invoice listing.
pub struct ListSaleInvoiceInput {
    pub limit: Option<u64>,
    pub offset: Option<u64>,
}

impl ListSaleInvoiceInput {
    pub open spec fn valid(self) -> bool {
        limit_valid(self.limit)
    }

    pub fn validate(&self) -> (r: bool)
        ensures
            r == self.valid(),
    {
        crate::models::page::check_limit(&self.limit)
    }
}

} // verus!
