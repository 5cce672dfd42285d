//! Response models, request inputs, and the stored records they are built
//! from, one module per entity.

pub mod contacts;
pub mod ledger_accounts;
pub mod ledger_transactions;
pub mod page;
pub mod products;
pub mod purchase_invoice_lines;
pub mod purchase_invoices;
pub mod purchase_orders;
pub mod sale_invoices;
pub mod sale_order_lines;
pub mod sale_orders;
pub mod stock_moves;
pub mod stocks;
pub mod taxes;
pub mod users;
pub mod variants;
