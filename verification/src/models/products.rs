//! Products: the catalogue entries variants belong to.

use vstd::prelude::*;
use crate::models::page::limit_valid;

verus! {

/// A stored product row.
pub struct ProductRecord {
    pub id: i32,
    pub name: String,
}

/// Field-for-field agreement of two product rows, strings compared by value.
pub open spec fn same_product(a: ProductRecord, b: ProductRecord) -> bool {
    &&& a.id == b.id
    &&& a.name@ == b.name@
}

impl Clone for ProductRecord {
    fn clone(&self) -> (r: Self)
        ensures
            same_product(r, *self),
    {
        ProductRecord { id: self.id, name: self.name.clone() }
    }
}

/// The product as presented by the API.
pub struct ProductModel {
    pub id: i32,
    pub name: String,
}

impl ProductModel {
    /// The model presents exactly the fields of the row.
    pub open spec fn describes(self, rec: ProductRecord) -> bool {
        &&& self.id == rec.id
        &&& self.name@ == rec.name@
    }

    pub fn from(rec: &ProductRecord) -> (m: Self)
        ensures
            m.describes(*rec),
    {
        ProductModel { id: rec.id, name: rec.name.clone() }
    }
}

/// Body of a product creation request.
pub struct CreateProductInput {
    pub name: String,
}

impl CreateProductInput {
    /// The name holds 1 to 32 characters.
    pub open spec fn valid(self) -> bool {
        1 <= self.name@.len() <= 32
    }

    pub fn validate(&self) -> (r: bool)
        ensures
            r == self.valid(),
    {
        crate::utils::text::len_between(self.name.as_str(), 1, 32)
    }
}

/// Query parameters of the product listing.
pub struct ListProductsInput {
    pub limit: Option<u64>,
    pub offset: Option<u64>,
}

impl ListProductsInput {
    pub open spec fn valid(self) -> bool {
        limit_valid(self.limit)
    }

    pub fn validate(&self) -> (r: bool)
        ensures
            r == self.valid(),
    {
        crate::models::page::check_limit(&self.limit)
    }
}

} // verus!
