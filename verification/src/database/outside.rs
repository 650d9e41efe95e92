//! The types and functions of the SQLite binding and of the migration
//! library that this library names.
use vstd::prelude::*;

verus! {

/// `rusqlite::Connection`: a connection to a SQLite database.
#[verifier::external_type_specification]
#[verifier::external_body]
pub struct ExConnection(rusqlite::Connection);

/// `rusqlite::Error`: a failure of the binding or of SQLite itself.
#[verifier::external_type_specification]
#[verifier::external_body]
pub struct ExStoreError(rusqlite::Error);

/// `rusqlite::Row`: one row of the result of a query.
#[verifier::external_type_specification]
#[verifier::external_body]
pub struct ExRow<'stmt>(rusqlite::Row<'stmt>);

/// `rusqlite::types::Value`: a value of a column, of whatever type.
#[verifier::external_type_specification]
#[verifier::external_body]
pub struct ExStoreValue(rusqlite::types::Value);

/// `rusqlite_migration::Error`: a failure while migrations are applied.
#[verifier::external_type_specification]
#[verifier::external_body]
pub struct ExMigrationError(rusqlite_migration::Error);

/// `rusqlite::Connection::open_in_memory`: a new connection to a database
/// in memory, or the failure of SQLite. Nothing is claimed of the outcome.
pub assume_specification[ rusqlite::Connection::open_in_memory ]() -> (connection: Result<
    rusqlite::Connection,
    rusqlite::Error,
>)
;

/// `rusqlite::Connection::last_insert_rowid`: the row id of the last
/// successful insert on this connection. Nothing is claimed of it.
pub assume_specification[ rusqlite::Connection::last_insert_rowid ](
    connection: &rusqlite::Connection,
) -> (id: i64)
;

/// `rusqlite::Error::sqlite_extended_error_code`: the extended result code
/// where the error is a failure of SQLite. Nothing is claimed of it.
pub assume_specification[ rusqlite::Error::sqlite_extended_error_code ](
    error: &rusqlite::Error,
) -> (code: Option<i32>)
;

} // verus!
