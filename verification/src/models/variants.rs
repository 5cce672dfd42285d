//! Variants: the sellable units of a product, with sale and purchase prices
//! in minor currency units.

use vstd::prelude::*;
use crate::models::page::limit_valid;

verus! {

/// A stored variant row.
pub struct VariantRecord {
    pub id: i32,
    pub product_id: i32,
    pub name: String,
    pub sale_price: i32,
    pub purchase_price: i32,
}

/// Field-for-field agreement of two variant rows, strings compared by value.
pub open spec fn same_variant(a: VariantRecord, b: VariantRecord) -> bool {
    &&& a.id == b.id
    &&& a.product_id == b.product_id
    &&& a.name@ == b.name@
    &&& a.sale_price == b.sale_price
    &&& a.purchase_price == b.purchase_price
}

impl Clone for VariantRecord {
    fn clone(&self) -> (r: Self)
        ensures
            same_variant(r, *self),
    {
        VariantRecord {
            id: self.id,
            product_id: self.product_id,
            name: self.name.clone(),
            sale_price: self.sale_price,
            purchase_price: self.purchase_price,
        }
    }
}

/// The variant as presented by the API.
pub struct VariantModel {
    pub id: i32,
    pub name: String,
    pub sale_price: i32,
    pub purchase_price: i32,
    pub product_id: i32,
}

impl VariantModel {
    /// The model presents exactly the fields of the row.
    pub open spec fn describes(self, rec: VariantRecord) -> bool {
        &&& self.id == rec.id
        &&& self.name@ == rec.name@
        &&& self.sale_price == rec.sale_price
        &&& self.purchase_price == rec.purchase_price
        &&& self.product_id == rec.product_id
    }

    pub fn from(rec: &VariantRecord) -> (m: Self)
        ensures
            m.describes(*rec),
    {
        VariantModel {
            id: rec.id,
            name: rec.name.clone(),
            sale_price: rec.sale_price,
            purchase_price: rec.purchase_price,
            product_id: rec.product_id,
        }
    }
}

/// Path parameter of the single-variant endpoints.
pub struct VariantsPath {
    pub id: i32,
}

impl VariantsPath {
    /// The id is positive.
    pub open spec fn valid(self) -> bool {
        self.id >= 1
    }

    pub fn validate(&self) -> (r: bool)
        ensures
            r == self.valid(),
    {
        self.id >= 1
    }
}

/// Body of a variant creation request.
pub struct CreateVariantInput {
    pub name: String,
    pub sale_price: i32,
    pub purchase_price: i32,
    pub product_id: i32,
}

impl CreateVariantInput {
    /// The name holds 1 to 64 characters, prices are not negative, and the
    /// referenced product id is positive.
    pub open spec fn valid(self) -> bool {
        &&& 1 <= self.name@.len() <= 64
        &&& self.sale_price >= 0
        &&& self.purchase_price >= 0
        &&& self.product_id >= 1
    }

    pub fn validate(&self) -> (r: bool)
        ensures
            r == self.valid(),
    {
        crate::utils::text::len_between(self.name.as_str(), 1, 64) && self.sale_price >= 0
            && self.purchase_price >= 0 && self.product_id >= 1
    }
}

/// Query parameters of the variant listing.
pub struct ListVariantsInput {
    pub limit: Option<u64>,
    pub offset: Option<u64>,
}

impl ListVariantsInput {
    pub open spec fn valid(self) -> bool {
        limit_valid(self.limit)
    }

    pub fn validate(&self) -> (r: bool)
        ensures
            r == self.valid(),
    {
        crate::models::page::check_limit(&self.limit)
    }
}

} // verus!
