//! Tax endpoints. The rate travels as its IEEE 754 bit pattern; the HTTP
//! layer converts and rejects negative rates before calling in.

use vstd::prelude::*;
use crate::err::ApiErrors;
use crate::models::page::{page_window, spec_resolve_limit, spec_resolve_offset, Page};
use crate::models::taxes::{CreateTaxData, ListTaxesInput, TaxRecord};
use crate::response::ApiResponse;
use crate::state::AppState;

verus! {

/// Create a tax. Both names must pass validation and the referenced ledger
/// account must exist (else a 404 error body); the stored row is returned.
pub fn create(state: &mut AppState, data: &CreateTaxData) -> (r: ApiResponse<TaxRecord>)
    requires
        old(state).wf(),
        old(state).taxes.next_id() < i32::MAX,
    ensures
        final(state).wf(),
        !data.valid() ==> r is BadRequest && *final(state) == *old(state),
        data.valid() && !old(state).ledger_accounts.contains_id(data.account_id) ==> r
            == ApiResponse::<TaxRecord>::Error(ApiErrors::AccountNotFound) && *final(state)
            == *old(state),
        data.valid() && old(state).ledger_accounts.contains_id(data.account_id) ==> ({
            &&& r matches ApiResponse::Success(m)
            &&& m.id == old(state).taxes.next_id()
            &&& m.name@ == data.name@
            &&& m.name_short@ == data.name_short@
            &&& m.rate_bits == data.rate_bits
            &&& m.account_id == data.account_id
            &&& final(state).taxes.rows().len() == old(state).taxes.rows().len() + 1
            &&& final(state).taxes.rows().subrange(
                0,
                old(state).taxes.rows().len() as int,
            ) == old(state).taxes.rows()
            &&& crate::models::taxes::same_tax(m, final(state).taxes.rows().last())
            &&& final(state).taxes.contains_id(m.id)
            &&& final(state).taxes.next_id() == old(state).taxes.next_id() + 1
            &&& crate::state::unchanged_except_taxes(*final(state), *old(state))
        }),
{
    if !data.validate() {
        return ApiResponse::BadRequest;
    }
    let account_id = match state.ledger_accounts.get(data.account_id) {
        Some(account) => account.id,
        None => {
            return ApiResponse::Error(ApiErrors::AccountNotFound);
        },
    };
    let rec = state.taxes.create(
        data.name.clone(),
        data.name_short.clone(),
        data.rate_bits,
        account_id,
    );
    proof {
        assert(state.taxes.rows().last().id == rec.id);
        assert(state.taxes.contains_id(rec.id));
    }
    ApiResponse::Success(rec)
}

/// One page of the taxes.
pub fn list(state: &AppState, input: &ListTaxesInput) -> (r: ApiResponse<Page<TaxRecord>>)
    requires
        state.wf(),
    ensures
        !input.valid() ==> r is BadRequest,
        input.valid() ==> ({
            let limit = spec_resolve_limit(input.limit);
            let offset = spec_resolve_offset(input.offset);
            let win = page_window(state.taxes.rows(), limit, offset);
            &&& r matches ApiResponse::Success(p)
            &&& p.limit == limit
            &&& p.offset == offset
            &&& p.total == state.taxes.rows().len()
            &&& p.data@.len() == win.len()
            &&& forall|i: int|
                0 <= i < win.len() ==> crate::models::taxes::same_tax(
                    #[trigger] p.data@[i],
                    win[i],
                )
        }),
{
    if !input.validate() {
        return ApiResponse::BadRequest;
    }
    let limit = crate::models::page::resolve_limit(&input.limit);
    let offset = crate::models::page::resolve_offset(&input.offset);
    let page = state.taxes.list(limit, offset);
    ApiResponse::Success(page)
}

/// A single tax: 404 when the id is absent.
pub fn get(state: &AppState, id: i32) -> (r: ApiResponse<TaxRecord>)
    requires
        state.wf(),
    ensures
        state.taxes.contains_id(id) ==> ({
            &&& r matches ApiResponse::Success(m)
            &&& crate::models::taxes::same_tax(m, state.taxes.spec_get(id))
        }),
        !state.taxes.contains_id(id) ==> r is NotFound,
{
    match state.taxes.get(id) {
        Some(rec) => ApiResponse::Success(rec.clone()),
        None => ApiResponse::NotFound,
    }
}

/// Delete a tax by id: 204 when a row was removed, 404 otherwise.
pub fn delete(state: &mut AppState, id: i32) -> (r: ApiResponse<()>)
    requires
        old(state).wf(),
    ensures
        final(state).wf(),
        old(state).taxes.contains_id(id) ==> r is NoContent && final(state).taxes.rows() == old(
            state,
        ).taxes.rows().remove(old(state).taxes.index_of(id)),
        !old(state).taxes.contains_id(id) ==> r is NotFound && final(state).taxes.rows() == old(
            state,
        ).taxes.rows(),
        !final(state).taxes.contains_id(id),
        final(state).taxes.next_id() == old(state).taxes.next_id(),
        crate::state::unchanged_except_taxes(*final(state), *old(state)),
{
    if state.taxes.delete(id) {
        ApiResponse::NoContent
    } else {
        ApiResponse::NotFound
    }
}

} // verus!
