//! Ledger-account endpoints.

use vstd::prelude::*;
use crate::err::ApiErrors;
use crate::models::ledger_accounts::{
    account_type_allowed, check_account_type, CreateLedgerAccountInput, LedgerAccountModel,
    ListLedgerAccountsInput,
};
use crate::models::page::{page_window, spec_resolve_limit, spec_resolve_offset, Page};
use crate::response::ApiResponse;
use crate::state::AppState;

verus! {

/// Create a ledger account. The input must pass validation and the type
/// must be one of the four permitted names (else a 400 error body).
pub fn create(state: &mut AppState, input: &CreateLedgerAccountInput) -> (r: ApiResponse<
    LedgerAccountModel,
>)
    requires
        old(state).wf(),
        old(state).ledger_accounts.next_id() < i32::MAX,
    ensures
        final(state).wf(),
        !input.valid() ==> r is BadRequest && *final(state) == *old(state),
        input.valid() && !account_type_allowed(input.account_type@) ==> r == ApiResponse::<
            LedgerAccountModel,
        >::Error(ApiErrors::InvalidAccountType) && *final(state) == *old(state),
        input.valid() && account_type_allowed(input.account_type@) ==> ({
            &&& r matches ApiResponse::Success(m)
            &&& m.id == old(state).ledger_accounts.next_id()
            &&& m.account_type@ == input.account_type@
            &&& m.name@ == input.name@
            &&& final(state).ledger_accounts.rows().len() == old(state).ledger_accounts.rows().len() + 1
            &&& final(state).ledger_accounts.rows().subrange(
                0,
                old(state).ledger_accounts.rows().len() as int,
            ) == old(state).ledger_accounts.rows()
            &&& m.describes(final(state).ledger_accounts.rows().last())
            &&& final(state).ledger_accounts.contains_id(m.id)
            &&& final(state).ledger_accounts.next_id() == old(state).ledger_accounts.next_id()
                + 1
            &&& crate::state::unchanged_except_ledger_accounts(*final(state), *old(state))
        }),
{
    if !input.validate() {
        return ApiResponse::BadRequest;
    }
    if !check_account_type(&input.account_type) {
        return ApiResponse::Error(ApiErrors::InvalidAccountType);
    }
    let rec = state.ledger_accounts.create(input.account_type.clone(), input.name.clone());
    proof {
        assert(state.ledger_accounts.rows().last().id == rec.id);
        assert(state.ledger_accounts.contains_id(rec.id));
    }
    ApiResponse::Success(LedgerAccountModel::from(&rec))
}

/// One page of the accounts.
pub fn list(state: &AppState, input: &ListLedgerAccountsInput) -> (r: ApiResponse<Page<
    LedgerAccountModel,
>>)
    requires
        state.wf(),
    ensures
        !input.valid() ==> r is BadRequest,
        input.valid() ==> ({
            let limit = spec_resolve_limit(input.limit);
            let offset = spec_resolve_offset(input.offset);
            let win = page_window(state.ledger_accounts.rows(), limit, offset);
            &&& r matches ApiResponse::Success(p)
            &&& p.limit == limit
            &&& p.offset == offset
            &&& p.total == state.ledger_accounts.rows().len()
            &&& p.data@.len() == win.len()
            &&& forall|i: int| 0 <= i < win.len() ==> #[trigger] p.data@[i].describes(win[i])
        }),
{
    if !input.validate() {
        return ApiResponse::BadRequest;
    }
    let limit = crate::models::page::resolve_limit(&input.limit);
    let offset = crate::models::page::resolve_offset(&input.offset);
    let page = state.ledger_accounts.list(limit, offset);
    let mut models: Vec<LedgerAccountModel> = Vec::new();
    let n = page.data.len();
    let mut i: usize = 0;
    while i < n
        invariant
            0 <= i <= n,
            n == page.data@.len(),
            models@.len() == i,
            forall|k: int|
                0 <= k < i ==> #[trigger] models@[k].describes(
                    page_window(state.ledger_accounts.rows(), limit, offset)[k],
                ),
            page.data@.len() == page_window(state.ledger_accounts.rows(), limit, offset).len(),
            forall|k: int|
                0 <= k < n ==> crate::models::ledger_accounts::same_ledger_account(
                    #[trigger] page.data@[k],
                    page_window(state.ledger_accounts.rows(), limit, offset)[k],
                ),
        decreases n - i,
    {
        models.push(LedgerAccountModel::from(&page.data[i]));
        i += 1;
    }
    ApiResponse::Success(
        Page { limit, offset, total: page.total, data: models },
    )
}

/// A single account: 404 when the id is absent.
pub fn get(state: &AppState, id: i32) -> (r: ApiResponse<LedgerAccountModel>)
    requires
        state.wf(),
    ensures
        state.ledger_accounts.contains_id(id) ==> ({
            &&& r matches ApiResponse::Success(m)
            &&& m.describes(state.ledger_accounts.spec_get(id))
        }),
        !state.ledger_accounts.contains_id(id) ==> r is NotFound,
{
    match state.ledger_accounts.get(id) {
        Some(rec) => ApiResponse::Success(LedgerAccountModel::from(rec)),
        None => ApiResponse::NotFound,
    }
}

/// Delete an account by id: 204 when a row was removed, 404 otherwise.
pub fn delete(state: &mut AppState, id: i32) -> (r: ApiResponse<()>)
    requires
        old(state).wf(),
    ensures
        final(state).wf(),
        old(state).ledger_accounts.contains_id(id) ==> r is NoContent && final(state).ledger_accounts.rows()
            == old(state).ledger_accounts.rows().remove(old(state).ledger_accounts.index_of(id)),
        !old(state).ledger_accounts.contains_id(id) ==> r is NotFound && final(state).ledger_accounts.rows() == old(state).ledger_accounts.rows(),
        !final(state).ledger_accounts.contains_id(id),
        final(state).ledger_accounts.next_id() == old(state).ledger_accounts.next_id(),
        crate::state::unchanged_except_ledger_accounts(*final(state), *old(state)),
{
    if state.ledger_accounts.delete(id) {
        ApiResponse::NoContent
    } else {
        ApiResponse::NotFound
    }
}

} // verus!
