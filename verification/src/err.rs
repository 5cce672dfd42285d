//! The named API errors: each carries an HTTP status, a human-readable
//! message, and a stable machine-readable code.

use vstd::prelude::*;

verus! {

pub const MESSAGE_ACCOUNT_NOT_FOUND: &'static str = "Ledger account could not be found";
pub const MESSAGE_DATABASE_UNREACHABLE: &'static str = "The database is currently unreachable";
pub const MESSAGE_INTERNAL_SERVER_ERROR: &'static str = "Internal server error";
pub const MESSAGE_INVALID_ACCOUNT_TYPE: &'static str = "Invalid account type. Must be asset, liability, income or expense";
pub const MESSAGE_VARIANT_NOT_FOUND: &'static str = "Variant not found";

pub const CODE_ACCOUNT_NOT_FOUND: &'static str = "ACCOUNT_NOT_FOUND";
pub const CODE_DATABASE_UNREACHABLE: &'static str = "DATABASE_UNREACHABLE";
pub const CODE_INTERNAL_SERVER_ERROR: &'static str = "INTERNAL_SERVER_ERROR";
pub const CODE_INVALID_ACCOUNT_TYPE: &'static str = "INVALID_ACCOUNT_TYPE";
pub const CODE_VARIANT_NOT_FOUND: &'static str = "VARIANT_NOT_FOUND";

pub const STATUS_ACCOUNT_NOT_FOUND: u16 = 404;
pub const STATUS_DATABASE_UNREACHABLE: u16 = 500;
pub const STATUS_INTERNAL_SERVER_ERROR: u16 = 500;
pub const STATUS_INVALID_ACCOUNT_TYPE: u16 = 400;
pub const STATUS_VARIANT_NOT_FOUND: u16 = 404;

#[derive(Clone, Copy, Debug, PartialEq, Eq, Structural)]
pub enum ApiErrors {
    AccountNotFound,
    DatabaseUnreachable,
    InternalServerError,
    InvalidAccountType,
    VariantNotFound,
}

impl ApiErrors {
    /// The HTTP status code sent with this error.
    pub fn status(&self) -> (s: u16)
        ensures
            s == self.spec_status(),
    {
        match self {
            ApiErrors::AccountNotFound => STATUS_ACCOUNT_NOT_FOUND,
            ApiErrors::DatabaseUnreachable => STATUS_DATABASE_UNREACHABLE,
            ApiErrors::InternalServerError => STATUS_INTERNAL_SERVER_ERROR,
            ApiErrors::InvalidAccountType => STATUS_INVALID_ACCOUNT_TYPE,
            ApiErrors::VariantNotFound => STATUS_VARIANT_NOT_FOUND,
        }
    }

    pub open spec fn spec_status(self) -> u16 {
        match self {
            ApiErrors::AccountNotFound => 404,
            ApiErrors::DatabaseUnreachable => 500,
            ApiErrors::InternalServerError => 500,
            ApiErrors::InvalidAccountType => 400,
            ApiErrors::VariantNotFound => 404,
        }
    }

    /// The human-readable message placed in the `error` field of the body.
    pub fn message(&self) -> (m: &'static str)
        ensures
            m@ == self.spec_message(),
    {
        match self {
            ApiErrors::AccountNotFound => MESSAGE_ACCOUNT_NOT_FOUND,
            ApiErrors::DatabaseUnreachable => MESSAGE_DATABASE_UNREACHABLE,
            ApiErrors::InternalServerError => MESSAGE_INTERNAL_SERVER_ERROR,
            ApiErrors::InvalidAccountType => MESSAGE_INVALID_ACCOUNT_TYPE,
            ApiErrors::VariantNotFound => MESSAGE_VARIANT_NOT_FOUND,
        }
    }

    pub open spec fn spec_message(self) -> Seq<char> {
        match self {
            ApiErrors::AccountNotFound => MESSAGE_ACCOUNT_NOT_FOUND@,
            ApiErrors::DatabaseUnreachable => MESSAGE_DATABASE_UNREACHABLE@,
            ApiErrors::InternalServerError => MESSAGE_INTERNAL_SERVER_ERROR@,
            ApiErrors::InvalidAccountType => MESSAGE_INVALID_ACCOUNT_TYPE@,
            ApiErrors::VariantNotFound => MESSAGE_VARIANT_NOT_FOUND@,
        }
    }

    /// The stable machine-readable code placed in the `errorCode` field of the body.
    pub fn code(&self) -> (c: &'static str)
        ensures
            c@ == self.spec_code(),
    {
        match self {
            ApiErrors::AccountNotFound => CODE_ACCOUNT_NOT_FOUND,
            ApiErrors::DatabaseUnreachable => CODE_DATABASE_UNREACHABLE,
            ApiErrors::InternalServerError => CODE_INTERNAL_SERVER_ERROR,
            ApiErrors::InvalidAccountType => CODE_INVALID_ACCOUNT_TYPE,
            ApiErrors::VariantNotFound => CODE_VARIANT_NOT_FOUND,
        }
    }

    pub open spec fn spec_code(self) -> Seq<char> {
        match self {
            ApiErrors::AccountNotFound => CODE_ACCOUNT_NOT_FOUND@,
            ApiErrors::DatabaseUnreachable => CODE_DATABASE_UNREACHABLE@,
            ApiErrors::InternalServerError => CODE_INTERNAL_SERVER_ERROR@,
            ApiErrors::InvalidAccountType => CODE_INVALID_ACCOUNT_TYPE@,
            ApiErrors::VariantNotFound => CODE_VARIANT_NOT_FOUND@,
        }
    }
}

} // verus!
