//! Purchase orders: an order placed with a supplier, moving goods between
//! two stocks.

use vstd::prelude::*;
use crate::models::page::limit_valid;

verus! {

/// Lifecycle of a purchase order.
#[derive(Clone, Copy, Debug, PartialEq, Eq, Structural)]
pub enum PurchaseOrderStatus {
    Draft,
    Finished,
}

/// The name each status is presented under.
pub open spec fn purchase_order_status_label(s: PurchaseOrderStatus) -> Seq<char> {
    match s {
        PurchaseOrderStatus::Draft => "draft"@,
        PurchaseOrderStatus::Finished => "finished"@,
    }
}

/// A stored purchase-order row; the date is kept in its `YYYY-MM-DD` form.
pub struct PurchaseOrderRecord {
    pub id: i32,
    pub reference: String,
    pub date: String,
    pub status: PurchaseOrderStatus,
    pub supplier_id: i32,
    pub source_stock_id: i32,
    pub target_stock_id: i32,
}

/// The purchase order as presented by the API, the status spelled out.
pub struct PurchaseOrderModel {
    pub id: i32,
    pub reference: String,
    pub date: String,
    pub status: String,
    pub supplier_id: i32,
    pub source_stock_id: i32,
    pub target_stock_id: i32,
}

impl PurchaseOrderModel {
    /// The model presents the fields of the row, the status by its label.
    pub open spec fn describes(self, rec: PurchaseOrderRecord) -> bool {
        &&& self.id == rec.id
        &&& self.reference@ == rec.reference@
        &&& self.date@ == rec.date@
        &&& self.status@ == purchase_order_status_label(rec.status)
        &&& self.supplier_id == rec.supplier_id
        &&& self.source_stock_id == rec.source_stock_id
        &&& self.target_stock_id == rec.target_stock_id
    }

    pub fn from(rec: &PurchaseOrderRecord) -> (m: Self)
        ensures
            m.describes(*rec),
    {
        let status: &str = match rec.status {
            PurchaseOrderStatus::Draft => "draft",
            PurchaseOrderStatus::Finished => "finished",
        };
        PurchaseOrderModel {
            id: rec.id,
            reference: rec.reference.clone(),
            date: rec.date.clone(),
            status: status.to_owned(),
            supplier_id: rec.supplier_id,
            source_stock_id: rec.source_stock_id,
            target_stock_id: rec.target_stock_id,
        }
    }
}

/// Body of a purchase-order creation request.
pub struct CreatePurchaseOrderInput {
    pub reference: String,
    pub date: String,
    pub status: String,
    pub supplier_id: i32,
    pub source_stock_id: i32,
    pub target_stock_id: i32,
}

/// Query parameters of the purchase-order listing.
pub struct ListPurchaseOrdersInput {
    pub limit: Option<u64>,
    pub offset: Option<u64>,
}

impl ListPurchaseOrdersInput {
    pub open spec fn valid(self) -> bool {
        limit_valid(self.limit)
    }

    pub fn validate(&self) -> (r: bool)
        ensures
            r == self.valid(),
    {
        crate::models::page::check_limit(&self.limit)
    }
}

} // verus!
