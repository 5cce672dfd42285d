//! User endpoints. Creation enforces the password policy and uniqueness of
//! the e-mail address, and stores only the bcrypt hash of the password.

use vstd::prelude::*;
use crate::models::page::{page_window, spec_resolve_limit, spec_resolve_offset, Page};
use crate::models::users::{CreateUserInput, ListUsersInput, UserModel};
use crate::response::ApiResponse;
use crate::state::AppState;
use crate::utils::password::{hash_password, is_secure_password, password_secure};

verus! {

/// Create a user. The input must pass validation, the password must meet
/// the policy (else 400), and no user may already carry the e-mail address
/// (else 409). The response model carries id, e-mail and names — never the
/// password or its hash.
pub fn create(state: &mut AppState, input: &CreateUserInput) -> (r: ApiResponse<UserModel>)
    requires
        old(state).wf(),
        old(state).users.next_id() < i32::MAX,
    ensures
        final(state).wf(),
        !input.valid() ==> r is BadRequest && *final(state) == *old(state),
        input.valid() && !password_secure(input.password@) ==> r is BadRequest && *final(state)
            == *old(state),
        input.valid() && password_secure(input.password@) && old(state).users.contains_email(
            input.email@,
        ) ==> r is Conflict && *final(state) == *old(state),
        input.valid() && password_secure(input.password@) && !old(state).users.contains_email(
            input.email@,
        ) ==> ({
            ||| (r is Internal && *final(state) == *old(state))
            ||| ({
                &&& r matches ApiResponse::Success(m)
                &&& m.id == old(state).users.next_id()
                &&& m.email@ == input.email@
                &&& m.first_name@ == input.first_name@
                &&& m.last_name@ == input.last_name@
                &&& final(state).users.rows().len() == old(state).users.rows().len() + 1
                &&& final(state).users.rows().subrange(
                    0,
                    old(state).users.rows().len() as int,
                ) == old(state).users.rows()
                &&& m.describes(final(state).users.rows().last())
                &&& final(state).users.contains_id(m.id)
                &&& final(state).users.contains_email(input.email@)
                &&& final(state).users.next_id() == old(state).users.next_id() + 1
                &&& crate::state::unchanged_except_users(*final(state), *old(state))
            })
        }),
{
    if !input.validate() {
        return ApiResponse::BadRequest;
    }
    if !is_secure_password(input.password.as_str()) {
        return ApiResponse::BadRequest;
    }
    if state.users.get_by_email(&input.email).is_some() {
        return ApiResponse::Conflict;
    }
    let hashed = match hash_password(input.password.as_str()) {
        Some(h) => h,
        None => {
            return ApiResponse::Internal;
        },
    };
    create_with_hash(state, input, hashed)
}

/// The tail of user creation, once the password hash is at hand: store the
/// row and answer with its model. Always succeeds.
pub fn create_with_hash(state: &mut AppState, input: &CreateUserInput, pass_hash: String) -> (r:
    ApiResponse<UserModel>)
    requires
        old(state).wf(),
        old(state).users.next_id() < i32::MAX,
        input.valid(),
        password_secure(input.password@),
        !old(state).users.contains_email(input.email@),
    ensures
        final(state).wf(),
        r matches ApiResponse::Success(m) && ({
            &&& m.id == old(state).users.next_id()
            &&& m.email@ == input.email@
            &&& m.first_name@ == input.first_name@
            &&& m.last_name@ == input.last_name@
            &&& final(state).users.rows().len() == old(state).users.rows().len() + 1
            &&& final(state).users.rows().subrange(
                0,
                old(state).users.rows().len() as int,
            ) == old(state).users.rows()
            &&& m.describes(final(state).users.rows().last())
            &&& final(state).users.contains_id(m.id)
            &&& final(state).users.contains_email(input.email@)
            &&& final(state).users.rows().last().pass_hash@ == pass_hash@
            &&& final(state).users.next_id() == old(state).users.next_id() + 1
            &&& crate::state::unchanged_except_users(*final(state), *old(state))
        }),
{
    let rec = state.users.create(
        input.email.clone(),
        pass_hash,
        input.first_name.clone(),
        input.last_name.clone(),
    );
    proof {
        assert(state.users.rows().last().id == rec.id);
        assert(state.users.contains_id(rec.id));
        assert(state.users.rows().last().email@ == input.email@);
        assert(state.users.contains_email(input.email@));
    }
    ApiResponse::Success(UserModel::from(&rec))
}

/// One page of the users.
pub fn list(state: &AppState, input: &ListUsersInput) -> (r: ApiResponse<Page<UserModel>>)
    requires
        state.wf(),
    ensures
        !input.valid() ==> r is BadRequest,
        input.valid() ==> ({
            let limit = spec_resolve_limit(input.limit);
            let offset = spec_resolve_offset(input.offset);
            let win = page_window(state.users.rows(), limit, offset);
            &&& r matches ApiResponse::Success(p)
            &&& p.limit == limit
            &&& p.offset == offset
            &&& p.total == state.users.rows().len()
            &&& p.data@.len() == win.len()
            &&& forall|i: int| 0 <= i < win.len() ==> #[trigger] p.data@[i].describes(win[i])
        }),
{
    if !input.validate() {
        return ApiResponse::BadRequest;
    }
    let limit = crate::models::page::resolve_limit(&input.limit);
    let offset = crate::models::page::resolve_offset(&input.offset);
    let page = state.users.list(limit, offset);
    let mut models: Vec<UserModel> = Vec::new();
    let n = page.data.len();
    let mut i: usize = 0;
    while i < n
        invariant
            0 <= i <= n,
            n == page.data@.len(),
            models@.len() == i,
            forall|k: int|
                0 <= k < i ==> #[trigger] models@[k].describes(
                    page_window(state.users.rows(), limit, offset)[k],
                ),
            page.data@.len() == page_window(state.users.rows(), limit, offset).len(),
            forall|k: int|
                0 <= k < n ==> crate::models::users::same_user(
                    #[trigger] page.data@[k],
                    page_window(state.users.rows(), limit, offset)[k],
                ),
        decreases n - i,
    {
        models.push(UserModel::from(&page.data[i]));
        i += 1;
    }
    ApiResponse::Success(
        Page { limit, offset, total: page.total, data: models },
    )
}

/// A single user: 404 when the id is absent.
pub fn get(state: &AppState, id: i32) -> (r: ApiResponse<UserModel>)
    requires
        state.wf(),
    ensures
        state.users.contains_id(id) ==> ({
            &&& r matches ApiResponse::Success(m)
            &&& m.describes(state.users.spec_get(id))
        }),
        !state.users.contains_id(id) ==> r is NotFound,
{
    match state.users.get(id) {
        Some(rec) => ApiResponse::Success(UserModel::from(rec)),
        None => ApiResponse::NotFound,
    }
}

/// Delete a user by id: 204 when a row was removed, 404 otherwise.
pub fn delete(state: &mut AppState, id: i32) -> (r: ApiResponse<()>)
    requires
        old(state).wf(),
    ensures
        final(state).wf(),
        old(state).users.contains_id(id) ==> r is NoContent && final(state).users.rows()
            == old(state).users.rows().remove(old(state).users.index_of(id)),
        !old(state).users.contains_id(id) ==> r is NotFound && final(state).users.rows() == old(state).users.rows(),
        !final(state).users.contains_id(id),
        final(state).users.next_id() == old(state).users.next_id(),
        crate::state::unchanged_except_users(*final(state), *old(state)),
{
    if state.users.delete(id) {
        ApiResponse::NoContent
    } else {
        ApiResponse::NotFound
    }
}

} // verus!
