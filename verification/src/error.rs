//! What a request can fail with, and how the failure is answered.
use vstd::prelude::*;

use crate::database::error::DatabaseError;
use crate::text::{from_chars, push_str};

verus! {

/// The failure of a request.
#[derive(Debug, Clone, PartialEq, Eq)]
pub enum RequestError {
    /// The store failed in a way that the sender can do nothing about.
    DatabaseError(DatabaseError),
    /// What was asked for does not exist.
    NotFound,
    /// What was sent breaks a constraint of the store, such as a foreign key
    /// that refers to no row.
    ConstraintViolation,
    /// The password is not the user's.
    WrongPassword,
}

impl RequestError {
    /// The failure of a request in which the store failed: a violated
    /// constraint is the sender's fault and is told apart from every other
    /// failure of the store.
    pub open spec fn classified(error: DatabaseError) -> RequestError {
        if error.constraint_violated() {
            RequestError::ConstraintViolation
        } else {
            RequestError::DatabaseError(error)
        }
    }

    /// The failure of a request in which the store failed.
    pub fn from(value: DatabaseError) -> (error: RequestError)
        ensures
            error == Self::classified(value),
    {
        if value.is_constraint_violation() {
            RequestError::ConstraintViolation
        } else {
            RequestError::DatabaseError(value)
        }
    }

    /// The HTTP status that answers the failure.
    pub open spec fn status_of(self) -> u16 {
        match self {
            RequestError::ConstraintViolation => 400,
            RequestError::DatabaseError(_) => 500,
            RequestError::NotFound => 404,
            RequestError::WrongPassword => 401,
        }
    }

    /// The HTTP status that answers the failure: bad request for a violated
    /// constraint, internal server error for any other failure of the store,
    /// not found and unauthorized.
    pub fn status(&self) -> (code: u16)
        ensures
            code == self.status_of(),
    {
        match self {
            RequestError::ConstraintViolation => 400,
            RequestError::DatabaseError(_) => 500,
            RequestError::NotFound => 404,
            RequestError::WrongPassword => 401,
        }
    }

    /// The text of the failure.
    pub fn to_string(&self) -> (text: String)
        ensures
            text@ == (match self {
                RequestError::DatabaseError(error) => "database error: SQL error: "@
                    + error.message@,
                RequestError::NotFound => "element not found"@,
                RequestError::ConstraintViolation => "invalid value"@,
                RequestError::WrongPassword => "invalid password"@,
            }),
    {
        match self {
            RequestError::DatabaseError(error) => {
                let mut out: Vec<char> = Vec::new();
                push_str(&mut out, "database error: ");
                push_str(&mut out, error.to_string().as_str());
                assert(out@ == "database error: SQL error: "@ + error.message@) by {
                    reveal_strlit("database error: SQL error: ");
                    reveal_strlit("database error: ");
                    reveal_strlit("SQL error: ");
                    assert(out@ =~= "database error: SQL error: "@ + error.message@);
                }
                from_chars(&out)
            },
            RequestError::NotFound => "element not found".to_owned(),
            RequestError::ConstraintViolation => "invalid value".to_owned(),
            RequestError::WrongPassword => "invalid password".to_owned(),
        }
    }
}

} // verus!
