//! Stock endpoints.

use vstd::prelude::*;
use crate::models::page::{page_window, spec_resolve_limit, spec_resolve_offset, Page};
use crate::models::stocks::{CreateStockInput, StockModel};
use crate::response::ApiResponse;
use crate::state::AppState;

verus! {

/// Create a stock of the company's own.
pub fn create_own(state: &mut AppState, input: &CreateStockInput) -> (r: ApiResponse<StockModel>)
    requires
        old(state).wf(),
        old(state).stocks.next_id() < i32::MAX,
    ensures
        final(state).wf(),
        !input.valid() ==> r is BadRequest && *final(state) == *old(state),
        input.valid() ==> ({
            &&& r matches ApiResponse::Success(m)
            &&& m.id == old(state).stocks.next_id()
            &&& m.name@ == input.name@
            &&& m.is_own
            &&& m.owner_id is None
            &&& final(state).stocks.rows().len() == old(state).stocks.rows().len() + 1
            &&& final(state).stocks.rows().subrange(
                0,
                old(state).stocks.rows().len() as int,
            ) == old(state).stocks.rows()
            &&& m.describes(final(state).stocks.rows().last())
            &&& final(state).stocks.contains_id(m.id)
            &&& final(state).stocks.next_id() == old(state).stocks.next_id() + 1
            &&& crate::state::unchanged_except_stocks(*final(state), *old(state))
        }),
{
    if !input.validate() {
        return ApiResponse::BadRequest;
    }
    let rec = state.stocks.create_own(input.name.clone());
    proof {
        assert(state.stocks.rows().last().id == rec.id);
        assert(state.stocks.contains_id(rec.id));
    }
    ApiResponse::Success(StockModel::from(&rec))
}

/// Create a stock owned by a contact; the contact must exist (else a
/// bodyless 404).
pub fn create_contact(state: &mut AppState, contact_id: i32, input: &CreateStockInput) -> (r:
    ApiResponse<StockModel>)
    requires
        old(state).wf(),
        old(state).stocks.next_id() < i32::MAX,
    ensures
        final(state).wf(),
        !input.valid() ==> r is BadRequest && *final(state) == *old(state),
        input.valid() && !old(state).contacts.contains_id(contact_id) ==> r is NotFound && *final(state) == *old(state),
        input.valid() && old(state).contacts.contains_id(contact_id) ==> ({
            &&& r matches ApiResponse::Success(m)
            &&& m.id == old(state).stocks.next_id()
            &&& m.name@ == input.name@
            &&& !m.is_own
            &&& m.owner_id == Some(contact_id)
            &&& final(state).stocks.rows().len() == old(state).stocks.rows().len() + 1
            &&& final(state).stocks.rows().subrange(
                0,
                old(state).stocks.rows().len() as int,
            ) == old(state).stocks.rows()
            &&& m.describes(final(state).stocks.rows().last())
            &&& final(state).stocks.contains_id(m.id)
            &&& final(state).stocks.next_id() == old(state).stocks.next_id() + 1
            &&& crate::state::unchanged_except_stocks(*final(state), *old(state))
        }),
{
    if !input.validate() {
        return ApiResponse::BadRequest;
    }
    if state.contacts.get(contact_id).is_none() {
        return ApiResponse::NotFound;
    }
    let rec = state.stocks.create_for_contact(input.name.clone(), contact_id);
    proof {
        assert(state.stocks.rows().last().id == rec.id);
        assert(state.stocks.contains_id(rec.id));
    }
    ApiResponse::Success(StockModel::from(&rec))
}

/// One page of the company's own stocks.
pub fn list_own(state: &AppState, limit: Option<u64>, offset: Option<u64>) -> (r: ApiResponse<
    Page<StockModel>,
>)
    requires
        state.wf(),
    ensures
        !crate::models::page::limit_valid(limit) ==> r is BadRequest,
        crate::models::page::limit_valid(limit) ==> ({
            let l = spec_resolve_limit(limit);
            let o = spec_resolve_offset(offset);
            let win = page_window(state.stocks.own(), l, o);
            &&& r matches ApiResponse::Success(p)
            &&& p.limit == l
            &&& p.offset == o
            &&& p.total == state.stocks.own().len()
            &&& p.data@.len() == win.len()
            &&& forall|i: int| 0 <= i < win.len() ==> #[trigger] p.data@[i].describes(win[i])
        }),
{
    if !crate::models::page::check_limit(&limit) {
        return ApiResponse::BadRequest;
    }
    let l = crate::models::page::resolve_limit(&limit);
    let o = crate::models::page::resolve_offset(&offset);
    let page = state.stocks.list_own(l, o);
    let mut models: Vec<StockModel> = Vec::new();
    let n = page.data.len();
    let mut i: usize = 0;
    while i < n
        invariant
            0 <= i <= n,
            n == page.data@.len(),
            models@.len() == i,
            forall|k: int|
                0 <= k < i ==> #[trigger] models@[k].describes(
                    page_window(state.stocks.own(), l, o)[k],
                ),
            page.data@.len() == page_window(state.stocks.own(), l, o).len(),
            forall|k: int|
                0 <= k < n ==> crate::models::stocks::same_stock(
                    #[trigger] page.data@[k],
                    page_window(state.stocks.own(), l, o)[k],
                ),
        decreases n - i,
    {
        models.push(StockModel::from(&page.data[i]));
        i += 1;
    }
    ApiResponse::Success(
        Page { limit: l, offset: o, total: page.total, data: models },
    )
}

/// One page of the stocks owned by one contact; the contact must exist
/// (else a bodyless 404).
pub fn list_contract(
    state: &AppState,
    contact_id: i32,
    limit: Option<u64>,
    offset: Option<u64>,
) -> (r: ApiResponse<Page<StockModel>>)
    requires
        state.wf(),
    ensures
        !crate::models::page::limit_valid(limit) ==> r is BadRequest,
        crate::models::page::limit_valid(limit) && !state.contacts.contains_id(contact_id) ==> r
            is NotFound,
        crate::models::page::limit_valid(limit) && state.contacts.contains_id(contact_id) ==> ({
            let l = spec_resolve_limit(limit);
            let o = spec_resolve_offset(offset);
            let win = page_window(state.stocks.of_contact(contact_id), l, o);
            &&& r matches ApiResponse::Success(p)
            &&& p.limit == l
            &&& p.offset == o
            &&& p.total == state.stocks.of_contact(contact_id).len()
            &&& p.data@.len() == win.len()
            &&& forall|i: int| 0 <= i < win.len() ==> #[trigger] p.data@[i].describes(win[i])
        }),
{
    if !crate::models::page::check_limit(&limit) {
        return ApiResponse::BadRequest;
    }
    if state.contacts.get(contact_id).is_none() {
        return ApiResponse::NotFound;
    }
    let l = crate::models::page::resolve_limit(&limit);
    let o = crate::models::page::resolve_offset(&offset);
    let page = state.stocks.list_for_contact(contact_id, l, o);
    let mut models: Vec<StockModel> = Vec::new();
    let n = page.data.len();
    let mut i: usize = 0;
    while i < n
        invariant
            0 <= i <= n,
            n == page.data@.len(),
            models@.len() == i,
            forall|k: int|
                0 <= k < i ==> #[trigger] models@[k].describes(
                    page_window(state.stocks.of_contact(contact_id), l, o)[k],
                ),
            page.data@.len() == page_window(state.stocks.of_contact(contact_id), l, o).len(),
            forall|k: int|
                0 <= k < n ==> crate::models::stocks::same_stock(
                    #[trigger] page.data@[k],
                    page_window(state.stocks.of_contact(contact_id), l, o)[k],
                ),
        decreases n - i,
    {
        models.push(StockModel::from(&page.data[i]));
        i += 1;
    }
    ApiResponse::Success(
        Page { limit: l, offset: o, total: page.total, data: models },
    )
}

/// A single stock: 404 when the id is absent.
pub fn get(state: &AppState, id: i32) -> (r: ApiResponse<StockModel>)
    requires
        state.wf(),
    ensures
        state.stocks.contains_id(id) ==> ({
            &&& r matches ApiResponse::Success(m)
            &&& m.describes(state.stocks.spec_get(id))
        }),
        !state.stocks.contains_id(id) ==> r is NotFound,
{
    match state.stocks.get(id) {
        Some(rec) => ApiResponse::Success(StockModel::from(rec)),
        None => ApiResponse::NotFound,
    }
}

/// Delete a stock by id: 204 when a row was removed, 404 otherwise.
pub fn delete(state: &mut AppState, id: i32) -> (r: ApiResponse<()>)
    requires
        old(state).wf(),
    ensures
        final(state).wf(),
        old(state).stocks.contains_id(id) ==> r is NoContent && final(state).stocks.rows()
            == old(state).stocks.rows().remove(old(state).stocks.index_of(id)),
        !old(state).stocks.contains_id(id) ==> r is NotFound && final(state).stocks.rows() == old(state).stocks.rows(),
        !final(state).stocks.contains_id(id),
        final(state).stocks.next_id() == old(state).stocks.next_id(),
        crate::state::unchanged_except_stocks(*final(state), *old(state)),
{
    if state.stocks.delete(id) {
        ApiResponse::NoContent
    } else {
        ApiResponse::NotFound
    }
}

} // verus!
