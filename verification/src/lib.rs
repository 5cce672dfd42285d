//! Core of a small-business ERP backend: double-entry ledger accounts and
//! transactions, contacts, products and variants, stock locations, taxes,
//! users, and the sales/purchase document models, together with the request
//! validation and handler logic of the REST layer.

use vstd::prelude::*;

pub mod err;
pub mod handlers;
pub mod models;
pub mod state;
pub mod store;
pub mod response;
pub mod schema;
pub mod schema_def;
pub mod utils;

verus! {

pub use crate::err::ApiErrors;

} // verus!
