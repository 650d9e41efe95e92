//! Who is logged in, and how a login is decided.
use vstd::prelude::*;
use vstd::string::StringSliceAdditionalSpecFns;
use vstd::utf8::encode_utf8;

use crate::database::error::DatabaseError;
use crate::database::primary_key::PrimaryKey;
use crate::database::record::Record;
use crate::error::RequestError;
use crate::user::password_hash::{credential_of, MAX_SALT_LEN, MAX_SECRET_LEN};
use crate::user::User;

verus! {

/// The credentials that a user sends to log in.
#[derive(Debug, Clone, PartialEq, Eq)]
pub struct Credentials {
    pub user: String,
    pub password: String,
}

impl Credentials {
    /// Whether the user's name is the name of the credentials and the
    /// password of the credentials is the one that the user's hash was made
    /// from.
    pub open spec fn fit(&self, user: User) -> bool {
        &&& user.username@ == self.user@
        &&& encode_utf8(self.user@).len() + 5 <= MAX_SALT_LEN
        &&& encode_utf8(self.password@).len() <= MAX_SECRET_LEN
        &&& user.password_hash.1
        &&& credential_of(encode_utf8(self.user@), encode_utf8(self.password@))
            == user.password_hash.0@
    }

    /// Check if the credentials match an existing user record. Credentials
    /// too long to be hashed match nothing.
    pub fn matches(&self, record: &Record<User>) -> (matches: bool)
        ensures
            matches == self.fit(record.value),
    {
        if record.value.username != self.user {
            return false;
        }
        if self.user.as_str().as_bytes().len() as u64 > MAX_SALT_LEN - 5
            || self.password.as_str().as_bytes().len() as u64 > MAX_SECRET_LEN {
            return false;
        }
        record.value.password_hash.matches(self.user.as_str(), self.password.as_str())
    }

    /// Decide a login from what the store gave for the name: the key of the
    /// user whose record matches the credentials, or why there is no login.
    /// That no user has the name and that the password is wrong are told
    /// apart.
    pub fn login(&self, found: Result<Option<Record<User>>, DatabaseError>) -> (outcome: Result<
        PrimaryKey<User>,
        RequestError,
    >)
        ensures
            match found {
                Ok(Some(record)) => if self.fit(record.value) {
                    outcome == Ok::<PrimaryKey<User>, RequestError>(record.identifier)
                } else {
                    outcome == Err::<PrimaryKey<User>, RequestError>(RequestError::WrongPassword)
                },
                Ok(None) => outcome == Err::<PrimaryKey<User>, RequestError>(
                    RequestError::NotFound,
                ),
                Err(error) => outcome == Err::<PrimaryKey<User>, RequestError>(
                    RequestError::classified(error),
                ),
            },
    {
        match found {
            Ok(Some(record)) => {
                if self.matches(&record) {
                    Ok(record.identifier)
                } else {
                    Err(RequestError::WrongPassword)
                }
            },
            Ok(None) => Err(RequestError::NotFound),
            Err(error) => Err(RequestError::from(error)),
        }
    }
}

/// The user who is logged in.
#[derive(Debug, PartialEq, Eq)]
pub struct AuthenticatedUser {
    pub user: PrimaryKey<User>,
}

} // verus!
