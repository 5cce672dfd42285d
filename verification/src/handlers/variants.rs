//! Variant endpoints.

use vstd::prelude::*;
use crate::err::ApiErrors;
use crate::models::page::{page_window, spec_resolve_limit, spec_resolve_offset, Page};
use crate::models::variants::{
    CreateVariantInput, ListVariantsInput, VariantModel, VariantsPath,
};
use crate::response::ApiResponse;
use crate::state::AppState;

verus! {

/// Create a variant. The input must pass validation and the referenced
/// product must exist (else a bodyless 404).
pub fn create(state: &mut AppState, input: &CreateVariantInput) -> (r: ApiResponse<VariantModel>)
    requires
        old(state).wf(),
        old(state).variants.next_id() < i32::MAX,
    ensures
        final(state).wf(),
        !input.valid() ==> r is BadRequest && *final(state) == *old(state),
        input.valid() && !old(state).products.contains_id(input.product_id) ==> r is NotFound
            && *final(state) == *old(state),
        input.valid() && old(state).products.contains_id(input.product_id) ==> ({
            &&& r matches ApiResponse::Success(m)
            &&& m.id == old(state).variants.next_id()
            &&& m.product_id == input.product_id
            &&& m.name@ == input.name@
            &&& m.sale_price == input.sale_price
            &&& m.purchase_price == input.purchase_price
            &&& final(state).variants.rows().len() == old(state).variants.rows().len() + 1
            &&& final(state).variants.rows().subrange(
                0,
                old(state).variants.rows().len() as int,
            ) == old(state).variants.rows()
            &&& m.describes(final(state).variants.rows().last())
            &&& final(state).variants.contains_id(m.id)
            &&& final(state).variants.next_id() == old(state).variants.next_id() + 1
            &&& crate::state::unchanged_except_variants(*final(state), *old(state))
        }),
{
    if !input.validate() {
        return ApiResponse::BadRequest;
    }
    if state.products.get(input.product_id).is_none() {
        return ApiResponse::NotFound;
    }
    let rec = state.variants.create(
        input.product_id,
        input.name.clone(),
        input.sale_price,
        input.purchase_price,
    );
    proof {
        assert(state.variants.rows().last().id == rec.id);
        assert(state.variants.contains_id(rec.id));
    }
    ApiResponse::Success(VariantModel::from(&rec))
}

/// One page of the variants of one product; 404 when the product is absent.
pub fn list(state: &AppState, product_id: i32, input: &ListVariantsInput) -> (r: ApiResponse<Page<
    VariantModel,
>>)
    requires
        state.wf(),
    ensures
        !input.valid() ==> r is BadRequest,
        input.valid() && !state.products.contains_id(product_id) ==> r is NotFound,
        input.valid() && state.products.contains_id(product_id) ==> ({
            let limit = spec_resolve_limit(input.limit);
            let offset = spec_resolve_offset(input.offset);
            let win = page_window(state.variants.of_product(product_id), limit, offset);
            &&& r matches ApiResponse::Success(p)
            &&& p.limit == limit
            &&& p.offset == offset
            &&& p.total == state.variants.of_product(product_id).len()
            &&& p.data@.len() == win.len()
            &&& forall|i: int| 0 <= i < win.len() ==> #[trigger] p.data@[i].describes(win[i])
        }),
{
    if !input.validate() {
        return ApiResponse::BadRequest;
    }
    if state.products.get(product_id).is_none() {
        return ApiResponse::NotFound;
    }
    let limit = crate::models::page::resolve_limit(&input.limit);
    let offset = crate::models::page::resolve_offset(&input.offset);
    let page = state.variants.list(product_id, limit, offset);
    let mut models: Vec<VariantModel> = Vec::new();
    let n = page.data.len();
    let mut i: usize = 0;
    while i < n
        invariant
            0 <= i <= n,
            n == page.data@.len(),
            models@.len() == i,
            forall|k: int|
                0 <= k < i ==> #[trigger] models@[k].describes(
                    page_window(state.variants.of_product(product_id), limit, offset)[k],
                ),
            page.data@.len() == page_window(
                state.variants.of_product(product_id),
                limit,
                offset,
            ).len(),
            forall|k: int|
                0 <= k < n ==> crate::models::variants::same_variant(
                    #[trigger] page.data@[k],
                    page_window(state.variants.of_product(product_id), limit, offset)[k],
                ),
        decreases n - i,
    {
        models.push(VariantModel::from(&page.data[i]));
        i += 1;
    }
    ApiResponse::Success(
        Page { limit, offset, total: page.total, data: models },
    )
}

/// A single variant: a 404 error body when the path is valid but the id is
/// absent.
pub fn get(state: &AppState, path: &VariantsPath) -> (r: ApiResponse<VariantModel>)
    requires
        state.wf(),
    ensures
        !path.valid() ==> r is BadRequest,
        path.valid() && state.variants.contains_id(path.id) ==> ({
            &&& r matches ApiResponse::Success(m)
            &&& m.describes(state.variants.spec_get(path.id))
        }),
        path.valid() && !state.variants.contains_id(path.id) ==> r == ApiResponse::<
            VariantModel,
        >::Error(ApiErrors::VariantNotFound),
{
    if !path.validate() {
        return ApiResponse::BadRequest;
    }
    match state.variants.get(path.id) {
        Some(rec) => ApiResponse::Success(VariantModel::from(rec)),
        None => ApiResponse::Error(ApiErrors::VariantNotFound),
    }
}

/// Delete a variant: 204 when a row was removed, a 404 error body
/// otherwise.
pub fn delete(state: &mut AppState, path: &VariantsPath) -> (r: ApiResponse<()>)
    requires
        old(state).wf(),
    ensures
        final(state).wf(),
        !path.valid() ==> r is BadRequest && *final(state) == *old(state),
        path.valid() && old(state).variants.contains_id(path.id) ==> r is NoContent && !final(state).variants.contains_id(path.id) && final(state).variants.rows() == old(
            state,
        ).variants.rows().remove(old(state).variants.index_of(path.id)),
        path.valid() && !old(state).variants.contains_id(path.id) ==> r == ApiResponse::<
            (),
        >::Error(ApiErrors::VariantNotFound) && final(state).variants.rows() == old(state).variants.rows(),
        final(state).variants.next_id() == old(state).variants.next_id(),
        crate::state::unchanged_except_variants(*final(state), *old(state)),
{
    if !path.validate() {
        return ApiResponse::BadRequest;
    }
    if state.variants.delete(path.id) {
        ApiResponse::NoContent
    } else {
        ApiResponse::Error(ApiErrors::VariantNotFound)
    }
}

} // verus!
