//! In-memory tables, one per entity: rows with unique auto-incremented ids,
//! lookups, deletions, and paginated listings.

pub mod contacts;
pub mod ledger_accounts;
pub mod products;
pub mod taxes;
pub mod users;
pub mod ledger_transactions;
pub mod stocks;
pub mod variants;
