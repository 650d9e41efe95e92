//! The failures of the storage layer.
use vstd::prelude::*;

verus! {

/// Where a failure comes from.
#[derive(Debug, Clone, Copy, PartialEq, Eq, Structural)]
pub enum ErrorKind {
    /// The store reported a failure.
    Store,
    /// A query that has to give a row gave none.
    NotFound,
    /// A value cannot be stored, or a row that was read cannot be understood.
    Conversion,
    /// The migrations are not defined as they must be.
    Migration,
}

/// An error of the storage layer.
#[derive(Debug, Clone, PartialEq, Eq)]
pub struct DatabaseError {
    /// Where the failure comes from.
    pub kind: ErrorKind,
    /// The extended result code of SQLite, where the store gave one.
    pub code: Option<i32>,
    /// What went wrong, in words.
    pub message: String,
}

/// The primary result code that SQLite gives for every kind of constraint
/// violation.
pub const SQLITE_CONSTRAINT: i32 = 19;

/// Whether an extended result code of SQLite stands for a violated
/// constraint: its low byte is the primary code of that class.
pub open spec fn is_constraint_code(code: i32) -> bool {
    code & 0xff == SQLITE_CONSTRAINT
}

impl DatabaseError {
    /// Whether the store refused a statement because a unique, foreign key
    /// or other constraint would be violated.
    pub open spec fn constraint_violated(&self) -> bool {
        self.kind == ErrorKind::Store && self.code is Some && is_constraint_code(self.code->0)
    }

    /// Whether the error results from a violated constraint, such as a
    /// foreign key that refers to no row.
    pub fn is_constraint_violation(&self) -> (violated: bool)
        ensures
            violated == self.constraint_violated(),
    {
        match (self.kind, self.code) {
            (ErrorKind::Store, Some(code)) => code & 0xff == SQLITE_CONSTRAINT,
            _ => false,
        }
    }

    /// A failure of the library itself, which the store knows nothing of.
    pub fn internal(kind: ErrorKind, message: &str) -> (error: DatabaseError)
        ensures
            error.kind == kind,
            error.code is None,
            error.message@ == message@,
    {
        DatabaseError { kind, code: None, message: message.to_owned() }
    }

    /// The text of the error.
    pub fn to_string(&self) -> (text: String)
        ensures
            text@ == "SQL error: "@ + self.message@,
    {
        let mut out: Vec<char> = Vec::new();
        crate::text::push_str(&mut out, "SQL error: ");
        crate::text::push_str(&mut out, self.message.as_str());
        crate::text::from_chars(&out)
    }
}

} // verus!
