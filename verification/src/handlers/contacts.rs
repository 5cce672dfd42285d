//! Customer and supplier endpoints.

use vstd::prelude::*;
use crate::err::ApiErrors;
use crate::models::contacts::{ContactModel, CreateContactInput, ListContactsInput};
use crate::models::page::{page_window, spec_resolve_limit, spec_resolve_offset, Page};
use crate::response::ApiResponse;
use crate::state::AppState;

verus! {

/// Create a customer. The input must pass validation, the referenced ledger
/// account must exist (else a 404 error body), and the new row is returned.
pub fn create_customer(state: &mut AppState, input: &CreateContactInput) -> (r: ApiResponse<
    ContactModel,
>)
    requires
        old(state).wf(),
        old(state).contacts.next_id() < i32::MAX,
    ensures
        final(state).wf(),
        !input.valid() ==> r is BadRequest && *final(state) == *old(state),
        input.valid() && !old(state).ledger_accounts.contains_id(input.account_id) ==> r
            == ApiResponse::<ContactModel>::Error(ApiErrors::AccountNotFound) && *final(state)
            == *old(state),
        input.valid() && old(state).ledger_accounts.contains_id(input.account_id) ==> ({
            &&& r matches ApiResponse::Success(m)
            &&& m.id == old(state).contacts.next_id()
            &&& m.name@ == input.name@
            &&& m.is_customer
            &&& !m.is_supplier
            &&& m.customer_account_id == Some(input.account_id)
            &&& m.supplier_account_id is None
            &&& m.street1@ == input.street1@
            &&& m.street2@ == input.street2@
            &&& m.postal_code@ == input.postal_code@
            &&& m.city@ == input.city@
            &&& m.country@ == input.country@
            &&& final(state).contacts.rows().len() == old(state).contacts.rows().len() + 1
            &&& final(state).contacts.rows().subrange(
                0,
                old(state).contacts.rows().len() as int,
            ) == old(state).contacts.rows()
            &&& m.describes(final(state).contacts.rows().last())
            &&& final(state).contacts.contains_id(m.id)
            &&& final(state).contacts.next_id() == old(state).contacts.next_id() + 1
            &&& crate::state::unchanged_except_contacts(*final(state), *old(state))
        }),
{
    if !input.validate() {
        return ApiResponse::BadRequest;
    }
    if state.ledger_accounts.get(input.account_id).is_none() {
        return ApiResponse::Error(ApiErrors::AccountNotFound);
    }
    let rec = state.contacts.create_customer(
        input.name.clone(),
        input.account_id,
        input.street1.clone(),
        input.street2.clone(),
        input.postal_code.clone(),
        input.city.clone(),
        input.country.clone(),
    );
    proof {
        assert(state.contacts.rows().last().id == rec.id);
        assert(state.contacts.contains_id(rec.id));
    }
    ApiResponse::Success(ContactModel::from(&rec))
}

/// Create a supplier. As for customers, but a missing ledger account is
/// answered with a bodyless 404.
pub fn create_supplier(state: &mut AppState, input: &CreateContactInput) -> (r: ApiResponse<
    ContactModel,
>)
    requires
        old(state).wf(),
        old(state).contacts.next_id() < i32::MAX,
    ensures
        final(state).wf(),
        !input.valid() ==> r is BadRequest && *final(state) == *old(state),
        input.valid() && !old(state).ledger_accounts.contains_id(input.account_id) ==> r
            is NotFound && *final(state) == *old(state),
        input.valid() && old(state).ledger_accounts.contains_id(input.account_id) ==> ({
            &&& r matches ApiResponse::Success(m)
            &&& m.id == old(state).contacts.next_id()
            &&& m.name@ == input.name@
            &&& !m.is_customer
            &&& m.is_supplier
            &&& m.customer_account_id is None
            &&& m.supplier_account_id == Some(input.account_id)
            &&& m.street1@ == input.street1@
            &&& m.street2@ == input.street2@
            &&& m.postal_code@ == input.postal_code@
            &&& m.city@ == input.city@
            &&& m.country@ == input.country@
            &&& final(state).contacts.rows().len() == old(state).contacts.rows().len() + 1
            &&& final(state).contacts.rows().subrange(
                0,
                old(state).contacts.rows().len() as int,
            ) == old(state).contacts.rows()
            &&& m.describes(final(state).contacts.rows().last())
            &&& final(state).contacts.contains_id(m.id)
            &&& final(state).contacts.next_id() == old(state).contacts.next_id() + 1
            &&& crate::state::unchanged_except_contacts(*final(state), *old(state))
        }),
{
    if !input.validate() {
        return ApiResponse::BadRequest;
    }
    if state.ledger_accounts.get(input.account_id).is_none() {
        return ApiResponse::NotFound;
    }
    let rec = state.contacts.create_supplier(
        input.name.clone(),
        input.account_id,
        input.street1.clone(),
        input.street2.clone(),
        input.postal_code.clone(),
        input.city.clone(),
        input.country.clone(),
    );
    proof {
        assert(state.contacts.rows().last().id == rec.id);
        assert(state.contacts.contains_id(rec.id));
    }
    ApiResponse::Success(ContactModel::from(&rec))
}

/// One page of the customers.
pub fn list_customers(state: &AppState, input: &ListContactsInput) -> (r: ApiResponse<Page<
    ContactModel,
>>)
    requires
        state.wf(),
    ensures
        !input.valid() ==> r is BadRequest,
        input.valid() ==> ({
            let limit = spec_resolve_limit(input.limit);
            let offset = spec_resolve_offset(input.offset);
            let win = page_window(state.contacts.customers(), limit, offset);
            &&& r matches ApiResponse::Success(p)
            &&& p.limit == limit
            &&& p.offset == offset
            &&& p.total == state.contacts.customers().len()
            &&& p.data@.len() == win.len()
            &&& forall|i: int| 0 <= i < win.len() ==> #[trigger] p.data@[i].describes(win[i])
        }),
{
    if !input.validate() {
        return ApiResponse::BadRequest;
    }
    let limit = crate::models::page::resolve_limit(&input.limit);
    let offset = crate::models::page::resolve_offset(&input.offset);
    let page = state.contacts.list_customers(limit, offset);
    let mut models: Vec<ContactModel> = Vec::new();
    let n = page.data.len();
    let mut i: usize = 0;
    while i < n
        invariant
            0 <= i <= n,
            n == page.data@.len(),
            models@.len() == i,
            forall|k: int|
                0 <= k < i ==> #[trigger] models@[k].describes(
                    page_window(state.contacts.customers(), limit, offset)[k],
                ),
            page.data@.len() == page_window(state.contacts.customers(), limit, offset).len(),
            forall|k: int|
                0 <= k < n ==> crate::models::contacts::same_contact(
                    #[trigger] page.data@[k],
                    page_window(state.contacts.customers(), limit, offset)[k],
                ),
        decreases n - i,
    {
        models.push(ContactModel::from(&page.data[i]));
        i += 1;
    }
    ApiResponse::Success(
        Page { limit, offset, total: page.total, data: models },
    )
}

/// One page of the suppliers.
pub fn list_suppliers(state: &AppState, input: &ListContactsInput) -> (r: ApiResponse<Page<
    ContactModel,
>>)
    requires
        state.wf(),
    ensures
        !input.valid() ==> r is BadRequest,
        input.valid() ==> ({
            let limit = spec_resolve_limit(input.limit);
            let offset = spec_resolve_offset(input.offset);
            let win = page_window(state.contacts.suppliers(), limit, offset);
            &&& r matches ApiResponse::Success(p)
            &&& p.limit == limit
            &&& p.offset == offset
            &&& p.total == state.contacts.suppliers().len()
            &&& p.data@.len() == win.len()
            &&& forall|i: int| 0 <= i < win.len() ==> #[trigger] p.data@[i].describes(win[i])
        }),
{
    if !input.validate() {
        return ApiResponse::BadRequest;
    }
    let limit = crate::models::page::resolve_limit(&input.limit);
    let offset = crate::models::page::resolve_offset(&input.offset);
    let page = state.contacts.list_suppliers(limit, offset);
    let mut models: Vec<ContactModel> = Vec::new();
    let n = page.data.len();
    let mut i: usize = 0;
    while i < n
        invariant
            0 <= i <= n,
            n == page.data@.len(),
            models@.len() == i,
            forall|k: int|
                0 <= k < i ==> #[trigger] models@[k].describes(
                    page_window(state.contacts.suppliers(), limit, offset)[k],
                ),
            page.data@.len() == page_window(state.contacts.suppliers(), limit, offset).len(),
            forall|k: int|
                0 <= k < n ==> crate::models::contacts::same_contact(
                    #[trigger] page.data@[k],
                    page_window(state.contacts.suppliers(), limit, offset)[k],
                ),
        decreases n - i,
    {
        models.push(ContactModel::from(&page.data[i]));
        i += 1;
    }
    ApiResponse::Success(
        Page { limit, offset, total: page.total, data: models },
    )
}

/// A single customer: 404 when the id is absent or names a contact that is
/// not a customer.
pub fn get_customer(state: &AppState, id: i32) -> (r: ApiResponse<ContactModel>)
    requires
        state.wf(),
    ensures
        state.contacts.contains_id(id) && state.contacts.spec_get(id).is_customer ==> ({
            &&& r matches ApiResponse::Success(m)
            &&& m.describes(state.contacts.spec_get(id))
        }),
        !(state.contacts.contains_id(id) && state.contacts.spec_get(id).is_customer) ==> r
            is NotFound,
{
    match state.contacts.get(id) {
        Some(rec) => {
            if !rec.is_customer {
                return ApiResponse::NotFound;
            }
            ApiResponse::Success(ContactModel::from(rec))
        },
        None => ApiResponse::NotFound,
    }
}

/// A single supplier: 404 when the id is absent or names a contact that is
/// not a supplier.
pub fn get_supplier(state: &AppState, id: i32) -> (r: ApiResponse<ContactModel>)
    requires
        state.wf(),
    ensures
        state.contacts.contains_id(id) && state.contacts.spec_get(id).is_supplier ==> ({
            &&& r matches ApiResponse::Success(m)
            &&& m.describes(state.contacts.spec_get(id))
        }),
        !(state.contacts.contains_id(id) && state.contacts.spec_get(id).is_supplier) ==> r
            is NotFound,
{
    match state.contacts.get(id) {
        Some(rec) => {
            if !rec.is_supplier {
                return ApiResponse::NotFound;
            }
            ApiResponse::Success(ContactModel::from(rec))
        },
        None => ApiResponse::NotFound,
    }
}

/// Delete a contact by id: 204 when a row was removed, 404 otherwise.
pub fn delete_customer(state: &mut AppState, id: i32) -> (r: ApiResponse<()>)
    requires
        old(state).wf(),
    ensures
        final(state).wf(),
        old(state).contacts.contains_id(id) ==> r is NoContent && final(state).contacts.rows()
            == old(state).contacts.rows().remove(old(state).contacts.index_of(id)),
        !old(state).contacts.contains_id(id) ==> r is NotFound && final(state).contacts.rows()
            == old(state).contacts.rows(),
        !final(state).contacts.contains_id(id),
        final(state).contacts.next_id() == old(state).contacts.next_id(),
        crate::state::unchanged_except_contacts(*final(state), *old(state)),
{
    if state.contacts.delete(id) {
        ApiResponse::NoContent
    } else {
        ApiResponse::NotFound
    }
}

/// Delete a contact by id: 204 when a row was removed, 404 otherwise.
pub fn delete_supplier(state: &mut AppState, id: i32) -> (r: ApiResponse<()>)
    requires
        old(state).wf(),
    ensures
        final(state).wf(),
        old(state).contacts.contains_id(id) ==> r is NoContent && final(state).contacts.rows()
            == old(state).contacts.rows().remove(old(state).contacts.index_of(id)),
        !old(state).contacts.contains_id(id) ==> r is NotFound && final(state).contacts.rows()
            == old(state).contacts.rows(),
        !final(state).contacts.contains_id(id),
        final(state).contacts.next_id() == old(state).contacts.next_id(),
        crate::state::unchanged_except_contacts(*final(state), *old(state)),
{
    if state.contacts.delete(id) {
        ApiResponse::NoContent
    } else {
        ApiResponse::NotFound
    }
}

} // verus!
