//! The endpoint logic, one module per entity group: validation, referential
//! checks against the state, and the response for every outcome.

pub mod contacts;
pub mod info;
pub mod ledger_accounts;
pub mod ledger_transactions;
pub mod products;
pub mod stocks;
pub mod taxes;
pub mod users;
pub mod variants;
