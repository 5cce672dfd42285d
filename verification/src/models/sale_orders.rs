//! Sale orders: a customer order moving goods between two stocks.

use vstd::prelude::*;
use crate::models::page::limit_valid;

verus! {

/// Lifecycle of a sale order.
#[derive(Clone, Copy, Debug, PartialEq, Eq, Structural)]
pub enum SaleOrderStatus {
    Draft,
    Quotation,
    Order,
    Finished,
}

/// The name each status is presented under.
pub open spec fn sale_order_status_label(s: SaleOrderStatus) -> Seq<char> {
    match s {
        SaleOrderStatus::Draft => "draft"@,
        SaleOrderStatus::Quotation => "quotation"@,
        SaleOrderStatus::Order => "order"@,
        SaleOrderStatus::Finished => "finished"@,
    }
}

/// A stored sale-order row; the date is kept in its `YYYY-MM-DD` form.
pub struct SaleOrderRecord {
    pub id: i32,
    pub reference: String,
    pub date: String,
    pub status: SaleOrderStatus,
    pub customer_id: i32,
    pub source_stock_id: i32,
    pub target_stock_id: i32,
}

/// The sale order as presented by the API, the status spelled out.
pub struct SaleOrderModel {
    pub id: i32,
    pub reference: String,
    pub date: String,
    pub status: String,
    pub customer_id: i32,
    pub source_stock_id: i32,
    pub target_stock_id: i32,
}

impl SaleOrderModel {
    /// The model presents the fields of the row, the status by its label.
    pub open spec fn describes(self, rec: SaleOrderRecord) -> bool {
        &&& self.id == rec.id
        &&& self.reference@ == rec.reference@
        &&& self.date@ == rec.date@
        &&& self.status@ == sale_order_status_label(rec.status)
        &&& self.customer_id == rec.customer_id
        &&& self.source_stock_id == rec.source_stock_id
        &&& self.target_stock_id == rec.target_stock_id
    }

    pub fn from(rec: &SaleOrderRecord) -> (m: Self)
        ensures
            m.describes(*rec),
    {
        let status: &str = match rec.status {
            SaleOrderStatus::Draft => "draft",
            SaleOrderStatus::Quotation => "quotation",
            SaleOrderStatus::Order => "order",
            SaleOrderStatus::Finished => "finished",
        };
        SaleOrderModel {
            id: rec.id,
            reference: rec.reference.clone(),
            date: rec.date.clone(),
            status: status.to_owned(),
            customer_id: rec.customer_id,
            source_stock_id: rec.source_stock_id,
            target_stock_id: rec.target_stock_id,
        }
    }
}

/// Body of a sale-order creation request.
pub struct CreateSaleOrderInput {
    pub reference: String,
    pub date: String,
    pub status: String,
    pub customer_id: i32,
    pub source_stock_id: i32,
    pub target_stock_id: i32,
}

/// Query parameters of the sale-order listing.
pub struct ListSaleOrdersInput {
    pub limit: Option<u64>,
    pub offset: Option<u64>,
}

impl ListSaleOrdersInput {
    pub open spec fn valid(self) -> bool {
        limit_valid(self.limit)
    }

    pub fn validate(&self) -> (r: bool)
        ensures
            r == self.valid(),
    {
        crate::models::page::check_limit(&self.limit)
    }
}

} // verus!
