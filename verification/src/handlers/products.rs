//! Product endpoints.

use vstd::prelude::*;
use crate::models::page::{page_window, spec_resolve_limit, spec_resolve_offset, Page};
use crate::models::products::{CreateProductInput, ListProductsInput, ProductModel};
use crate::response::ApiResponse;
use crate::state::AppState;

verus! {

/// Create a product.
pub fn create(state: &mut AppState, input: &CreateProductInput) -> (r: ApiResponse<ProductModel>)
    requires
        old(state).wf(),
        old(state).products.next_id() < i32::MAX,
    ensures
        final(state).wf(),
        !input.valid() ==> r is BadRequest && *final(state) == *old(state),
        input.valid() ==> ({
            &&& r matches ApiResponse::Success(m)
            &&& m.id == old(state).products.next_id()
            &&& m.name@ == input.name@
            &&& final(state).products.rows().len() == old(state).products.rows().len() + 1
            &&& final(state).products.rows().subrange(
                0,
                old(state).products.rows().len() as int,
            ) == old(state).products.rows()
            &&& m.describes(final(state).products.rows().last())
            &&& final(state).products.contains_id(m.id)
            &&& final(state).products.next_id() == old(state).products.next_id() + 1
            &&& crate::state::unchanged_except_products(*final(state), *old(state))
        }),
{
    if !input.validate() {
        return ApiResponse::BadRequest;
    }
    let rec = state.products.create(input.name.clone());
    proof {
        assert(state.products.rows().last().id == rec.id);
        assert(state.products.contains_id(rec.id));
    }
    ApiResponse::Success(ProductModel::from(&rec))
}

/// One page of the products.
pub fn list(state: &AppState, input: &ListProductsInput) -> (r: ApiResponse<Page<ProductModel>>)
    requires
        state.wf(),
    ensures
        !input.valid() ==> r is BadRequest,
        input.valid() ==> ({
            let limit = spec_resolve_limit(input.limit);
            let offset = spec_resolve_offset(input.offset);
            let win = page_window(state.products.rows(), limit, offset);
            &&& r matches ApiResponse::Success(p)
            &&& p.limit == limit
            &&& p.offset == offset
            &&& p.total == state.products.rows().len()
            &&& p.data@.len() == win.len()
            &&& forall|i: int| 0 <= i < win.len() ==> #[trigger] p.data@[i].describes(win[i])
        }),
{
    if !input.validate() {
        return ApiResponse::BadRequest;
    }
    let limit = crate::models::page::resolve_limit(&input.limit);
    let offset = crate::models::page::resolve_offset(&input.offset);
    let page = state.products.list(limit, offset);
    let mut models: Vec<ProductModel> = Vec::new();
    let n = page.data.len();
    let mut i: usize = 0;
    while i < n
        invariant
            0 <= i <= n,
            n == page.data@.len(),
            models@.len() == i,
            forall|k: int|
                0 <= k < i ==> #[trigger] models@[k].describes(
                    page_window(state.products.rows(), limit, offset)[k],
                ),
            page.data@.len() == page_window(state.products.rows(), limit, offset).len(),
            forall|k: int|
                0 <= k < n ==> crate::models::products::same_product(
                    #[trigger] page.data@[k],
                    page_window(state.products.rows(), limit, offset)[k],
                ),
        decreases n - i,
    {
        models.push(ProductModel::from(&page.data[i]));
        i += 1;
    }
    ApiResponse::Success(
        Page { limit, offset, total: page.total, data: models },
    )
}

/// A single product: 404 when the id is absent.
pub fn get(state: &AppState, id: i32) -> (r: ApiResponse<ProductModel>)
    requires
        state.wf(),
    ensures
        state.products.contains_id(id) ==> ({
            &&& r matches ApiResponse::Success(m)
            &&& m.describes(state.products.spec_get(id))
        }),
        !state.products.contains_id(id) ==> r is NotFound,
{
    match state.products.get(id) {
        Some(rec) => ApiResponse::Success(ProductModel::from(rec)),
        None => ApiResponse::NotFound,
    }
}

/// Delete a product by id: 204 when a row was removed, 404 otherwise.
pub fn delete(state: &mut AppState, id: i32) -> (r: ApiResponse<()>)
    requires
        old(state).wf(),
    ensures
        final(state).wf(),
        old(state).products.contains_id(id) ==> r is NoContent && final(state).products.rows()
            == old(state).products.rows().remove(old(state).products.index_of(id)),
        !old(state).products.contains_id(id) ==> r is NotFound && final(state).products.rows()
            == old(state).products.rows(),
        !final(state).products.contains_id(id),
        final(state).products.next_id() == old(state).products.next_id(),
        crate::state::unchanged_except_products(*final(state), *old(state)),
{
    if state.products.delete(id) {
        ApiResponse::NoContent
    } else {
        ApiResponse::NotFound
    }
}

} // verus!
