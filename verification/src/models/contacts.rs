//! Contacts: customers and suppliers, optionally linked to ledger accounts.

use vstd::prelude::*;
use crate::models::page::limit_valid;

verus! {

/// A stored contact row.
pub struct ContactRecord {
    pub id: i32,
    pub name: String,
    pub is_customer: bool,
    pub is_supplier: bool,
    pub customer_account_id: Option<i32>,
    pub supplier_account_id: Option<i32>,
    pub street1: String,
    pub street2: String,
    pub postal_code: String,
    pub city: String,
    pub country: String,
}

/// Field-for-field agreement of two contact rows, strings compared by value.
pub open spec fn same_contact(a: ContactRecord, b: ContactRecord) -> bool {
    &&& a.id == b.id
    &&& a.name@ == b.name@
    &&& a.is_customer == b.is_customer
    &&& a.is_supplier == b.is_supplier
    &&& a.customer_account_id == b.customer_account_id
    &&& a.supplier_account_id == b.supplier_account_id
    &&& a.street1@ == b.street1@
    &&& a.street2@ == b.street2@
    &&& a.postal_code@ == b.postal_code@
    &&& a.city@ == b.city@
    &&& a.country@ == b.country@
}

impl Clone for ContactRecord {
    fn clone(&self) -> (r: Self)
        ensures
            same_contact(r, *self),
    {
        ContactRecord {
            id: self.id,
            name: self.name.clone(),
            is_customer: self.is_customer,
            is_supplier: self.is_supplier,
            customer_account_id: self.customer_account_id,
            supplier_account_id: self.supplier_account_id,
            street1: self.street1.clone(),
            street2: self.street2.clone(),
            postal_code: self.postal_code.clone(),
            city: self.city.clone(),
            country: self.country.clone(),
        }
    }
}

/// The contact as presented by the API.
pub struct ContactModel {
    pub id: i32,
    pub name: String,
    pub is_customer: bool,
    pub is_supplier: bool,
    pub customer_account_id: Option<i32>,
    pub supplier_account_id: Option<i32>,
    pub street1: String,
    pub street2: String,
    pub postal_code: String,
    pub city: String,
    pub country: String,
}

impl ContactModel {
    /// The model presents exactly the fields of the row.
    pub open spec fn describes(self, rec: ContactRecord) -> bool {
        &&& self.id == rec.id
        &&& self.name@ == rec.name@
        &&& self.is_customer == rec.is_customer
        &&& self.is_supplier == rec.is_supplier
        &&& self.customer_account_id == rec.customer_account_id
        &&& self.supplier_account_id == rec.supplier_account_id
        &&& self.street1@ == rec.street1@
        &&& self.street2@ == rec.street2@
        &&& self.postal_code@ == rec.postal_code@
        &&& self.city@ == rec.city@
        &&& self.country@ == rec.country@
    }

    pub fn from(rec: &ContactRecord) -> (m: Self)
        ensures
            m.describes(*rec),
    {
        ContactModel {
            id: rec.id,
            name: rec.name.clone(),
            is_customer: rec.is_customer,
            is_supplier: rec.is_supplier,
            customer_account_id: rec.customer_account_id,
            supplier_account_id: rec.supplier_account_id,
            street1: rec.street1.clone(),
            street2: rec.street2.clone(),
            postal_code: rec.postal_code.clone(),
            city: rec.city.clone(),
            country: rec.country.clone(),
        }
    }
}

/// Body of a customer or supplier creation request.
pub struct CreateContactInput {
    pub name: String,
    pub account_id: i32,
    pub street1: String,
    pub street2: String,
    pub postal_code: String,
    pub city: String,
    pub country: String,
}

impl CreateContactInput {
    /// The name holds 1 to 128 characters, the referenced account id is
    /// positive, and each address field holds at most 128 characters.
    pub open spec fn valid(self) -> bool {
        &&& 1 <= self.name@.len() <= 128
        &&& self.account_id >= 1
        &&& self.street1@.len() <= 128
        &&& self.street2@.len() <= 128
        &&& self.postal_code@.len() <= 128
        &&& self.city@.len() <= 128
        &&& self.country@.len() <= 128
    }

    pub fn validate(&self) -> (r: bool)
        ensures
            r == self.valid(),
    {
        crate::utils::text::len_between(self.name.as_str(), 1, 128)
            && self.account_id >= 1
            && crate::utils::text::len_between(self.street1.as_str(), 0, 128)
            && crate::utils::text::len_between(self.street2.as_str(), 0, 128)
            && crate::utils::text::len_between(self.postal_code.as_str(), 0, 128)
            && crate::utils::text::len_between(self.city.as_str(), 0, 128)
            && crate::utils::text::len_between(self.country.as_str(), 0, 128)
    }
}

/// Query parameters of the customer and supplier listings.
pub struct ListContactsInput {
    pub limit: Option<u64>,
    pub offset: Option<u64>,
}

impl ListContactsInput {
    pub open spec fn valid(self) -> bool {
        limit_valid(self.limit)
    }

    pub fn validate(&self) -> (r: bool)
        ensures
            r == self.valid(),
    {
        crate::models::page::check_limit(&self.limit)
    }
}

} // verus!
