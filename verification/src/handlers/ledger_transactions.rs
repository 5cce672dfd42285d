//! Ledger-transaction endpoints.

use vstd::prelude::*;
use crate::models::ledger_transactions::{
    CreateLedgerTransactionInput, LedgerTransactionModel, ListLedgerTransactionsInput,
};
use crate::models::page::{page_window, spec_resolve_limit, spec_resolve_offset, Page};
use crate::response::ApiResponse;
use crate::state::AppState;

verus! {

/// Create a ledger transaction. Both account ids and the amount must be
/// positive and the date of the `YYYY-MM-DD` shape; whether the accounts
/// exist is not checked.
pub fn create(state: &mut AppState, input: &CreateLedgerTransactionInput) -> (r: ApiResponse<
    LedgerTransactionModel,
>)
    requires
        old(state).wf(),
        old(state).ledger_transactions.next_id() < i32::MAX,
    ensures
        final(state).wf(),
        !input.valid() ==> r is BadRequest && *final(state) == *old(state),
        input.valid() ==> ({
            &&& r matches ApiResponse::Success(m)
            &&& m.id == old(state).ledger_transactions.next_id()
            &&& m.debit_account_id == input.debit_account_id
            &&& m.credit_account_id == input.credit_account_id
            &&& m.date@ == input.date@
            &&& m.amount == input.amount
            &&& final(state).ledger_transactions.rows().len() == old(state).ledger_transactions.rows().len() + 1
            &&& final(state).ledger_transactions.rows().subrange(
                0,
                old(state).ledger_transactions.rows().len() as int,
            ) == old(state).ledger_transactions.rows()
            &&& m.describes(final(state).ledger_transactions.rows().last())
            &&& final(state).ledger_transactions.contains_id(m.id)
            &&& final(state).ledger_transactions.next_id() == old(
                state,
            ).ledger_transactions.next_id() + 1
            &&& crate::state::unchanged_except_ledger_transactions(*final(state), *old(state))
        }),
{
    if !input.validate() {
        return ApiResponse::BadRequest;
    }
    let rec = state.ledger_transactions.create(
        input.debit_account_id,
        input.credit_account_id,
        input.date.clone(),
        input.amount,
    );
    proof {
        assert(state.ledger_transactions.rows().last().id == rec.id);
        assert(state.ledger_transactions.contains_id(rec.id));
    }
    ApiResponse::Success(LedgerTransactionModel::from(&rec))
}

/// One page of the transactions touching the requested account.
pub fn list(state: &AppState, input: &ListLedgerTransactionsInput) -> (r: ApiResponse<Page<
    LedgerTransactionModel,
>>)
    requires
        state.wf(),
    ensures
        !input.valid() ==> r is BadRequest,
        input.valid() ==> ({
            let limit = spec_resolve_limit(input.limit);
            let offset = spec_resolve_offset(input.offset);
            let win = page_window(
                state.ledger_transactions.of_account(input.account_id),
                limit,
                offset,
            );
            &&& r matches ApiResponse::Success(p)
            &&& p.limit == limit
            &&& p.offset == offset
            &&& p.total == state.ledger_transactions.of_account(input.account_id).len()
            &&& p.data@.len() == win.len()
            &&& forall|i: int| 0 <= i < win.len() ==> #[trigger] p.data@[i].describes(win[i])
        }),
{
    if !input.validate() {
        return ApiResponse::BadRequest;
    }
    let limit = crate::models::page::resolve_limit(&input.limit);
    let offset = crate::models::page::resolve_offset(&input.offset);
    let page = state.ledger_transactions.list(input.account_id, limit, offset);
    let mut models: Vec<LedgerTransactionModel> = Vec::new();
    let n = page.data.len();
    let mut i: usize = 0;
    while i < n
        invariant
            0 <= i <= n,
            n == page.data@.len(),
            models@.len() == i,
            forall|k: int|
                0 <= k < i ==> #[trigger] models@[k].describes(
                    page_window(
                        state.ledger_transactions.of_account(input.account_id),
                        limit,
                        offset,
                    )[k],
                ),
            page.data@.len() == page_window(
                state.ledger_transactions.of_account(input.account_id),
                limit,
                offset,
            ).len(),
            forall|k: int|
                0 <= k < n ==> crate::models::ledger_transactions::same_ledger_transaction(
                    #[trigger] page.data@[k],
                    page_window(
                        state.ledger_transactions.of_account(input.account_id),
                        limit,
                        offset,
                    )[k],
                ),
        decreases n - i,
    {
        models.push(LedgerTransactionModel::from(&page.data[i]));
        i += 1;
    }
    ApiResponse::Success(
        Page { limit, offset, total: page.total, data: models },
    )
}

/// A single transaction: 404 when the id is absent.
pub fn get(state: &AppState, id: i32) -> (r: ApiResponse<LedgerTransactionModel>)
    requires
        state.wf(),
    ensures
        state.ledger_transactions.contains_id(id) ==> ({
            &&& r matches ApiResponse::Success(m)
            &&& m.describes(state.ledger_transactions.spec_get(id))
        }),
        !state.ledger_transactions.contains_id(id) ==> r is NotFound,
{
    match state.ledger_transactions.get(id) {
        Some(rec) => ApiResponse::Success(LedgerTransactionModel::from(rec)),
        None => ApiResponse::NotFound,
    }
}

/// Delete a transaction by id: 204 when a row was removed, 404 otherwise.
pub fn delete(state: &mut AppState, id: i32) -> (r: ApiResponse<()>)
    requires
        old(state).wf(),
    ensures
        final(state).wf(),
        old(state).ledger_transactions.contains_id(id) ==> r is NoContent && final(state).ledger_transactions.rows()
            == old(state).ledger_transactions.rows().remove(old(state).ledger_transactions.index_of(id)),
        !old(state).ledger_transactions.contains_id(id) ==> r is NotFound && final(state).ledger_transactions.rows() == old(state).ledger_transactions.rows(),
        !final(state).ledger_transactions.contains_id(id),
        final(state).ledger_transactions.next_id() == old(state).ledger_transactions.next_id(),
        crate::state::unchanged_except_ledger_transactions(*final(state), *old(state)),
{
    if state.ledger_transactions.delete(id) {
        ApiResponse::NoContent
    } else {
        ApiResponse::NotFound
    }
}

} // verus!
