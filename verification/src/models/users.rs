//! User accounts. The stored row keeps the password hash; the API model
//! never carries it.

use vstd::prelude::*;
use crate::models::page::limit_valid;
use crate::utils::email::email_accepted;
use crate::utils::name::name_acceptable;

verus! {

/// A stored user row, password hash included.
pub struct UserRecord {
    pub id: i32,
    pub email: String,
    pub pass_hash: String,
    pub first_name: String,
    pub last_name: String,
}

/// Field-for-field agreement of two user rows, strings compared by value.
pub open spec fn same_user(a: UserRecord, b: UserRecord) -> bool {
    &&& a.id == b.id
    &&& a.email@ == b.email@
    &&& a.pass_hash@ == b.pass_hash@
    &&& a.first_name@ == b.first_name@
    &&& a.last_name@ == b.last_name@
}

impl Clone for UserRecord {
    fn clone(&self) -> (r: Self)
        ensures
            same_user(r, *self),
    {
        UserRecord {
            id: self.id,
            email: self.email.clone(),
            pass_hash: self.pass_hash.clone(),
            first_name: self.first_name.clone(),
            last_name: self.last_name.clone(),
        }
    }
}

/// The user as presented by the API: id, e-mail and names, never the
/// password hash.
pub struct UserModel {
    pub id: i32,
    pub email: String,
    pub first_name: String,
    pub last_name: String,
}

impl UserModel {
    /// The model presents the id, e-mail and names of the row, and nothing
    /// else.
    pub open spec fn describes(self, rec: UserRecord) -> bool {
        &&& self.id == rec.id
        &&& self.email@ == rec.email@
        &&& self.first_name@ == rec.first_name@
        &&& self.last_name@ == rec.last_name@
    }

    pub fn from(rec: &UserRecord) -> (m: Self)
        ensures
            m.describes(*rec),
    {
        UserModel {
            id: rec.id,
            email: rec.email.clone(),
            first_name: rec.first_name.clone(),
            last_name: rec.last_name.clone(),
        }
    }
}

/// Body of a user creation request.
pub struct CreateUserInput {
    pub email: String,
    pub password: String,
    pub first_name: String,
    pub last_name: String,
}

impl CreateUserInput {
    /// Lengths lie in 1..=64, the e-mail has the accepted shape, and both
    /// names pass the name rule.
    pub open spec fn valid(self) -> bool {
        &&& 1 <= self.email@.len() <= 64
        &&& email_accepted(self.email@)
        &&& 1 <= self.password@.len() <= 64
        &&& 1 <= self.first_name@.len() <= 64
        &&& 1 <= self.last_name@.len() <= 64
        &&& name_acceptable(self.first_name@)
        &&& name_acceptable(self.last_name@)
    }

    pub fn validate(&self) -> (r: bool)
        ensures
            r == self.valid(),
    {
        crate::utils::text::len_between(self.email.as_str(), 1, 64)
            && crate::utils::email::check_email(self.email.as_str())
            && crate::utils::text::len_between(self.password.as_str(), 1, 64)
            && crate::utils::text::len_between(self.first_name.as_str(), 1, 64)
            && crate::utils::text::len_between(self.last_name.as_str(), 1, 64)
            && crate::utils::name::valid_name(self.first_name.as_str())
            && crate::utils::name::valid_name(self.last_name.as_str())
    }
}

/// Query parameters of the user listing.
pub struct ListUsersInput {
    pub limit: Option<u64>,
    pub offset: Option<u64>,
}

impl ListUsersInput {
    pub open spec fn valid(self) -> bool {
        limit_valid(self.limit)
    }

    pub fn validate(&self) -> (r: bool)
        ensures
            r == self.valid(),
    {
        crate::models::page::check_limit(&self.limit)
    }
}

} // verus!
