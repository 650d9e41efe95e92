//! The connection to the SQLite store.
use vstd::prelude::*;

use super::error::{DatabaseError, ErrorKind};
use super::value::{all_bindable, bindable, row_view, SqlValue, SqlValueView};

verus! {

/// `rusqlite::Connection::open`: a connection to the database file at
/// `path`. Nothing is claimed of the outcome.
#[verifier::external_body]
fn open_file(path: &str) -> Result<rusqlite::Connection, rusqlite::Error> {
    rusqlite::Connection::open(path)
}

/// The `Display` text of a `rusqlite::Error`. Nothing is claimed of it.
#[verifier::external_body]
fn describe(error: &rusqlite::Error) -> String {
    format!("{}", error)
}

/// The value of rusqlite that holds what `value` holds. A real number has
/// no value to hand on and is left out.
#[verifier::external_body]
fn bind(value: &SqlValue) -> rusqlite::types::Value
    requires
        !(value is Real),
{
    match value {
        SqlValue::Null | SqlValue::Real => rusqlite::types::Value::Null,
        SqlValue::Integer(i) => rusqlite::types::Value::Integer(*i),
        SqlValue::Text(text) => rusqlite::types::Value::Text(text.clone()),
        SqlValue::Blob(bytes) => rusqlite::types::Value::Blob(bytes.clone()),
    }
}

/// `rusqlite::Connection::execute` with the values of `params` bound in
/// order: the number of rows changed. Nothing is claimed of the outcome.
#[verifier::external_body]
fn execute(connection: &rusqlite::Connection, sql: &str, params: &Vec<SqlValue>) -> Result<
    usize,
    rusqlite::Error,
>
    requires
        bindable(row_view(params@)),
{
    connection.execute(sql, rusqlite::params_from_iter(params.iter().map(bind)))
}

/// `rusqlite::Row::get` for a dynamically typed value: the value of column
/// `index` of the row. Nothing is claimed of the outcome.
#[verifier::external_body]
fn read_column(row: &rusqlite::Row<'_>, index: usize) -> Result<SqlValue, rusqlite::Error> {
    row.get::<usize, rusqlite::types::Value>(index).map(
        |value|
            match value {
                rusqlite::types::Value::Null => SqlValue::Null,
                rusqlite::types::Value::Integer(i) => SqlValue::Integer(i),
                rusqlite::types::Value::Real(_) => SqlValue::Real,
                rusqlite::types::Value::Text(text) => SqlValue::Text(text),
                rusqlite::types::Value::Blob(bytes) => SqlValue::Blob(bytes),
            },
    )
}

/// `rusqlite::Connection::prepare` and `rusqlite::Statement::query_map`:
/// the rows that the query gives, each read by [`read_row`], with `None` in
/// place of a row that could not be read. Nothing is claimed of the outcome.
#[verifier::external_body]
fn run_query(connection: &rusqlite::Connection, sql: &str, params: &Vec<SqlValue>) -> Result<
    Vec<Option<Vec<SqlValue>>>,
    rusqlite::Error,
>
    requires
        bindable(row_view(params@)),
{
    let mut statement = connection.prepare(sql)?;
    let width = statement.column_count();
    let rows = statement.query_map(
        rusqlite::params_from_iter(params.iter().map(bind)),
        |row| read_row(row, width),
    )?;
    Ok(rows.map(|row| row.ok()).collect())
}

/// `rusqlite::Connection::pragma_update` on the main schema. Nothing is
/// claimed of the outcome.
#[verifier::external_body]
fn set_pragma(connection: &rusqlite::Connection, name: &str, value: &str) -> Result<
    (),
    rusqlite::Error,
> {
    connection.pragma_update(None, name, value)
}

/// `rusqlite::Connection::blob_open` for reading, then
/// `rusqlite::blob::Blob::read_at_exact` for the whole length: the bytes of
/// the blob in the given row and column. Nothing is claimed of the outcome.
#[verifier::external_body]
fn read_blob(connection: &rusqlite::Connection, table: &str, column: &str, row: i64) -> Result<
    Vec<u8>,
    rusqlite::Error,
> {
    let blob = connection.blob_open(rusqlite::MAIN_DB, table, column, row, true)?;
    let mut bytes = vec![0u8; blob.len()];
    blob.read_at_exact(&mut bytes, 0)?;
    Ok(bytes)
}

/// One step of the schema's history: the script that makes the step and the
/// script that takes it back.
#[derive(Debug, Clone, PartialEq, Eq)]
pub struct Migration {
    pub up: String,
    pub down: String,
}

/// `rusqlite_migration::Migrations::new` with one `M::up(..).down(..)` for
/// each step, then `rusqlite_migration::Migrations::to_latest`: the steps
/// that the store has not seen yet are applied. Nothing is claimed of the
/// outcome.
#[verifier::external_body]
fn apply_migrations(connection: &mut rusqlite::Connection, steps: &Vec<Migration>) -> Result<
    (),
    rusqlite_migration::Error,
> {
    rusqlite_migration::Migrations::new(
        steps.iter().map(|step| rusqlite_migration::M::up(&step.up).down(&step.down)).collect(),
    ).to_latest(connection)
}

/// `rusqlite_migration::Migrations::validate`: whether the steps can all be
/// applied, one by one, to an empty database in memory. Nothing is claimed
/// of the outcome.
#[verifier::external_body]
fn validate_migrations(steps: &Vec<Migration>) -> bool {
    rusqlite_migration::Migrations::new(
        steps.iter().map(|step| rusqlite_migration::M::up(&step.up).down(&step.down)).collect(),
    ).validate().is_ok()
}

/// The failure of the store inside a failure of a migration, if that is
/// what it is.
#[verifier::external_body]
fn store_failure(error: rusqlite_migration::Error) -> Option<rusqlite::Error> {
    match error {
        rusqlite_migration::Error::RusqliteError { query: _, err } => Some(err),
        _ => None,
    }
}

/// Whether the binding can give a value for the column `index` of the row.
spec fn column_given(row: &rusqlite::Row<'_>, index: usize) -> bool {
    exists|value: SqlValue|
        #[trigger] call_ensures(read_column, (row, index), Ok::<SqlValue, rusqlite::Error>(value))
}

/// How the values read from a row relate to what the binding gives for its
/// columns: where every one of the first `width` columns gave a value, the
/// values stand in the order of the columns; else the first column that
/// failed gives its failure, and no column behind it was read.
spec fn row_read(
    row: &rusqlite::Row<'_>,
    width: usize,
    values: Result<Vec<SqlValue>, rusqlite::Error>,
) -> bool {
    match values {
        Ok(values) => values.len() == width && forall|i: int|
            0 <= i < width ==> call_ensures(
                read_column,
                (row, i as usize),
                Ok::<SqlValue, rusqlite::Error>(#[trigger] values[i]),
            ),
        Err(error) => exists|failed: usize|
            failed < width && #[trigger] call_ensures(
                read_column,
                (row, failed),
                Err::<SqlValue, rusqlite::Error>(error),
            ) && forall|i: usize| i < failed ==> #[trigger] column_given(row, i),
    }
}

/// Read the first `width` columns of a row, in order. The first column that
/// cannot be read ends the reading with its failure.
fn read_row(row: &rusqlite::Row<'_>, width: usize) -> (values: Result<
    Vec<SqlValue>,
    rusqlite::Error,
>)
    ensures
        row_read(row, width, values),
        values is Ok ==> values->Ok_0.len() == width,
{
    let read = |index: usize| -> (value: Result<SqlValue, rusqlite::Error>)
        ensures
            call_ensures(read_column, (row, index), value),
        {
            read_column(row, index)
        };
    let values = read_columns(width, read);
    proof {
        if values is Ok {
            let read_values = values->Ok_0;
            assert forall|i: int| 0 <= i < width implies call_ensures(
                read_column,
                (row, i as usize),
                Ok::<SqlValue, rusqlite::Error>(#[trigger] read_values[i]),
            ) by {
                assert(call_ensures(
                    read,
                    (i as usize,),
                    Ok::<SqlValue, rusqlite::Error>(read_values[i]),
                ));
            }
        } else {
            let error = values->Err_0;
            let failed = choose|failed: usize|
                failed < width && #[trigger] call_ensures(
                    read,
                    (failed,),
                    Err::<SqlValue, rusqlite::Error>(error),
                ) && forall|i: usize| i < failed ==> #[trigger] column_read(read, i);
            assert(call_ensures(
                read_column,
                (row, failed),
                Err::<SqlValue, rusqlite::Error>(error),
            ));
            assert forall|i: usize| i < failed implies #[trigger] column_given(row, i) by {
                assert(column_read(read, i));
                let value = choose|value: SqlValue|
                    call_ensures(read, (i,), Ok::<SqlValue, rusqlite::Error>(value));
                assert(call_ensures(
                    read_column,
                    (row, i),
                    Ok::<SqlValue, rusqlite::Error>(value),
                ));
            }
        }
    }
    values
}

/// Whether reading the column `index` can give a value.
pub open spec fn column_read<E, F: Fn(usize) -> Result<SqlValue, E>>(
    read: F,
    index: usize,
) -> bool {
    exists|value: SqlValue| #[trigger] call_ensures(read, (index,), Ok::<SqlValue, E>(value))
}

/// How the outcome of reading columns one by one relates to the outcome of
/// each: where every column gave a value, the values stand in the order of
/// the columns; else the first column that failed gives its failure, and no
/// column behind it was read.
pub open spec fn read_in_order<E, F: Fn(usize) -> Result<SqlValue, E>>(
    width: usize,
    read: F,
    values: Result<Vec<SqlValue>, E>,
) -> bool {
    match values {
        Ok(values) => values.len() == width && forall|i: int|
            0 <= i < width ==> call_ensures(
                read,
                (i as usize,),
                Ok::<SqlValue, E>(#[trigger] values[i]),
            ),
        Err(error) => exists|failed: usize|
            failed < width && #[trigger] call_ensures(
                read,
                (failed,),
                Err::<SqlValue, E>(error),
            ) && forall|i: usize| i < failed ==> #[trigger] column_read(read, i),
    }
}

/// Read `width` columns one by one, from the first on, and stop at the
/// first that fails.
pub fn read_columns<E, F: Fn(usize) -> Result<SqlValue, E>>(width: usize, read: F) -> (values:
    Result<Vec<SqlValue>, E>)
    requires
        forall|index: usize| call_requires(read, (index,)),
    ensures
        read_in_order(width, read, values),
{
    let mut values: Vec<SqlValue> = Vec::new();
    let mut index: usize = 0;
    while index < width
        invariant
            index <= width,
            values.len() == index,
            forall|index: usize| call_requires(read, (index,)),
            forall|i: int|
                0 <= i < index ==> call_ensures(
                    read,
                    (i as usize,),
                    Ok::<SqlValue, E>(#[trigger] values[i]),
                ),
        decreases width - index,
    {
        match read(index) {
            Ok(value) => {
                values.push(value);
            },
            Err(error) => {
                assert forall|i: usize| i < index implies #[trigger] column_read(read, i) by {
                    assert(call_ensures(
                        read,
                        (i as int as usize,),
                        Ok::<SqlValue, E>(values[i as int]),
                    ));
                }
                assert(exists|failed: usize|
                    failed < width && #[trigger] call_ensures(
                        read,
                        (failed,),
                        Err::<SqlValue, E>(error),
                    ) && forall|i: usize| i < failed ==> #[trigger] column_read(read, i));
                let outcome: Result<Vec<SqlValue>, E> = Err(error);
                assert(outcome->Err_0 == error);
                assert(read_in_order(width, read, outcome));
                return outcome;
            },
        }
        index += 1;
    }
    Ok(values)
}

/// Whether `message` is the text that the binding writes for `error`.
pub closed spec fn told_as(error: &rusqlite::Error, message: String) -> bool {
    call_ensures(describe, (error,), message)
}

impl DatabaseError {
    /// The library's error for a failure of the store: of the kind of the
    /// store's failures, with the extended result code that the binding
    /// gives for the failure and the text that it writes for it.
    pub fn from_store(error: &rusqlite::Error) -> (converted: DatabaseError)
        ensures
            converted.kind == ErrorKind::Store,
            call_ensures(rusqlite::Error::sqlite_extended_error_code, (error,), converted.code),
            told_as(error, converted.message),
    {
        let code = error.sqlite_extended_error_code();
        let message = describe(error);
        assert(call_ensures(describe, (error,), message));
        DatabaseError { kind: ErrorKind::Store, code, message }
    }
}

/// How a result of the binding becomes a result of the library: a value
/// stays as it is, and a failure becomes the library's error for it.
pub open spec fn converted<T>(
    raw: Result<T, rusqlite::Error>,
    outcome: Result<T, DatabaseError>,
) -> bool {
    match raw {
        Ok(value) => outcome == Ok::<T, DatabaseError>(value),
        Err(error) => outcome is Err && call_ensures(
            DatabaseError::from_store,
            (&error,),
            outcome->Err_0,
        ),
    }
}

/// The result of the library for a result of the binding.
fn convert<T>(raw: Result<T, rusqlite::Error>) -> (outcome: Result<T, DatabaseError>)
    ensures
        converted(raw, outcome),
        outcome is Err ==> outcome->Err_0.kind == ErrorKind::Store,
{
    match raw {
        Ok(value) => Ok(value),
        Err(error) => {
            let converted = DatabaseError::from_store(&error);
            assert(call_ensures(DatabaseError::from_store, (&error,), converted));
            Err(converted)
        },
    }
}

/// How the rows that a query gave relate to what a decoder made of them:
/// every row that was read and that the decoder accepts gives one item, in
/// the order of the rows; a row that was not read or is refused gives none.
pub open spec fn decoded_rows<T, F: Fn(&Vec<SqlValue>) -> Option<T>>(
    rows: Seq<Option<Vec<SqlValue>>>,
    decode: F,
    items: Seq<T>,
) -> bool
    decreases rows.len(),
{
    if rows.len() == 0 {
        items.len() == 0
    } else {
        match rows.last() {
            Some(row) => {
                ||| (call_ensures(decode, (&row,), None::<T>) && decoded_rows(
                    rows.drop_last(),
                    decode,
                    items,
                ))
                ||| (items.len() > 0 && call_ensures(decode, (&row,), Some(items.last()))
                    && decoded_rows(rows.drop_last(), decode, items.drop_last()))
            },
            None => decoded_rows(rows.drop_last(), decode, items),
        }
    }
}

/// Decode the rows of a query, leaving out each row that could not be read
/// or that the decoder refuses.
pub fn decode_rows<T, F: Fn(&Vec<SqlValue>) -> Option<T>>(
    rows: &Vec<Option<Vec<SqlValue>>>,
    decode: F,
) -> (items: Vec<T>)
    requires
        forall|row: &Vec<SqlValue>| call_requires(decode, (row,)),
    ensures
        decoded_rows(rows@, decode, items@),
{
    let mut items: Vec<T> = Vec::new();
    let mut i: usize = 0;
    assert(rows@.subrange(0, 0).len() == 0);
    while i < rows.len()
        invariant
            i <= rows.len(),
            forall|row: &Vec<SqlValue>| call_requires(decode, (row,)),
            decoded_rows(rows@.subrange(0, i as int), decode, items@),
        decreases rows.len() - i,
    {
        let ghost before = items@;
        let ghost next = rows@.subrange(0, i + 1);
        assert(next.drop_last() == rows@.subrange(0, i as int));
        assert(next.last() == rows@[i as int]);
        if let Some(row) = &rows[i] {
            if let Some(item) = decode(row) {
                items.push(item);
                assert(items@.drop_last() == before);
            }
        }
        i += 1;
    }
    assert(rows@.subrange(0, i as int) == rows@);
    items
}

/// How the rows of a query for a single row relate to what a decoder made
/// of the first: no row gives nothing, a first row that the decoder accepts
/// gives its item, and a first row that was not read or is refused gives a
/// conversion error.
pub open spec fn decoded_first<T, F: Fn(&Vec<SqlValue>) -> Option<T>>(
    rows: Seq<Option<Vec<SqlValue>>>,
    decode: F,
    outcome: Result<Option<T>, DatabaseError>,
) -> bool {
    if rows.len() == 0 {
        outcome is Ok && outcome->Ok_0 is None
    } else {
        match rows[0] {
            Some(row) => {
                ||| (outcome is Ok && outcome->Ok_0 is Some && call_ensures(
                    decode,
                    (&row,),
                    outcome->Ok_0,
                ))
                ||| (outcome is Err && outcome->Err_0.kind == ErrorKind::Conversion
                    && call_ensures(decode, (&row,), None::<T>))
            },
            None => outcome is Err && outcome->Err_0.kind == ErrorKind::Conversion,
        }
    }
}

/// Decode the first row of a query for a single row.
pub fn decode_first<T, F: Fn(&Vec<SqlValue>) -> Option<T>>(
    rows: &Vec<Option<Vec<SqlValue>>>,
    decode: F,
) -> (outcome: Result<Option<T>, DatabaseError>)
    requires
        forall|row: &Vec<SqlValue>| call_requires(decode, (row,)),
    ensures
        decoded_first(rows@, decode, outcome),
{
    if rows.len() == 0 {
        return Ok(None);
    }
    if let Some(row) = &rows[0] {
        if let Some(item) = decode(row) {
            return Ok(Some(item));
        }
    }
    Err(DatabaseError::internal(ErrorKind::Conversion, "the row cannot be decoded"))
}

/// The text of the error for values that cannot be bound.
pub const UNBOUND: &'static str = "a real number cannot be bound to a statement";

/// Whether `outcome` is the refusal of values that cannot be bound: a
/// conversion error of the library itself.
pub open spec fn refused_unbound<T>(outcome: Result<T, DatabaseError>) -> bool {
    &&& outcome is Err
    &&& outcome->Err_0.kind == ErrorKind::Conversion
    &&& outcome->Err_0.code is None
    &&& outcome->Err_0.message@ == UNBOUND@
}

/// Whether `outcome` is what [`Database::execute`] can give on `database`
/// for the statement `statement` with the values `params` bound.
pub open spec fn executed(
    database: &Database,
    statement: Seq<char>,
    params: Seq<SqlValueView>,
    outcome: Result<usize, DatabaseError>,
) -> bool {
    exists|text: &str, values: &Vec<SqlValue>|
        text@ == statement && row_view(values@) == params && #[trigger] call_ensures(
            Database::execute,
            (database, text, values),
            outcome,
        )
}

/// Whether `outcome` is what [`Database::insert`] can give on `database`
/// for the statement `statement` with the values `params` bound.
pub open spec fn inserted(
    database: &Database,
    statement: Seq<char>,
    params: Seq<SqlValueView>,
    outcome: Result<i64, DatabaseError>,
) -> bool {
    exists|text: &str, values: &Vec<SqlValue>|
        text@ == statement && row_view(values@) == params && #[trigger] call_ensures(
            Database::insert,
            (database, text, values),
            outcome,
        )
}

/// Whether `outcome` is what [`Database::query`] can give on `database` for
/// the statement `statement` with the values `params` bound.
pub open spec fn queried(
    database: &Database,
    statement: Seq<char>,
    params: Seq<SqlValueView>,
    outcome: Result<Vec<Option<Vec<SqlValue>>>, DatabaseError>,
) -> bool {
    exists|text: &str, values: &Vec<SqlValue>|
        text@ == statement && row_view(values@) == params && #[trigger] call_ensures(
            Database::query,
            (database, text, values),
            outcome,
        )
}

/// Whether `outcome` is what [`Database::open_blob`] can give on `database`
/// for the blob in the column `column` of the row `row` of `table`.
pub open spec fn blob_read(
    database: &Database,
    table: Seq<char>,
    column: Seq<char>,
    row: i64,
    outcome: Result<Vec<u8>, DatabaseError>,
) -> bool {
    exists|table_name: &str, column_name: &str|
        table_name@ == table && column_name@ == column && #[trigger] call_ensures(
            Database::open_blob,
            (database, table_name, column_name, row),
            outcome,
        )
}

/// A connection to the store.
pub struct Database {
    connection: rusqlite::Connection,
}

/// How the failure of a preparation relates to the failure of the
/// migrations: where a failure of the store lies inside, the library's error
/// for it, and else an error of the kind of the migrations.
spec fn migration_failed(
    failure: rusqlite_migration::Error,
    prepared: Result<(), DatabaseError>,
) -> bool {
    exists|inside: Option<rusqlite::Error>|
        #[trigger] call_ensures(store_failure, (failure,), inside) && (match inside {
            Some(error) => prepared is Err && call_ensures(
                DatabaseError::from_store,
                (&error,),
                prepared->Err_0,
            ),
            None => prepared is Err && prepared->Err_0.kind == ErrorKind::Migration
                && prepared->Err_0.code is None,
        })
}

/// How the outcome of a preparation relates to the two pragmas: write-ahead
/// logging is switched on first, and where that fails, the enforcement of
/// foreign keys is not asked for.
spec fn pragmas_set(
    connection: &rusqlite::Connection,
    prepared: Result<(), DatabaseError>,
) -> bool {
    exists|journal: Result<(), rusqlite::Error>|
        #[trigger] call_ensures(set_pragma, (connection, "journal_mode", "WAL"), journal)
            && (match journal {
            Err(error) => converted(Err::<(), rusqlite::Error>(error), prepared),
            Ok(()) => exists|enforced: Result<(), rusqlite::Error>|
                #[trigger] call_ensures(set_pragma, (connection, "foreign_keys", "ON"), enforced)
                    && converted(enforced, prepared),
        })
}

impl Database {
    /// Bring the schema up to date, then switch on write-ahead logging and
    /// the enforcement of foreign keys, in this order. The first failure
    /// ends the preparation: where the migrations fail, no pragma is set.
    fn prepare_connection(&mut self, steps: &Vec<Migration>) -> (prepared: Result<
        (),
        DatabaseError,
    >)
        ensures
            exists|
                connection: &mut rusqlite::Connection,
                migrated: Result<(), rusqlite_migration::Error>,
            |
                {
                    &&& #[trigger] call_ensures(apply_migrations, (connection, steps), migrated)
                    &&& *connection == old(self).connection
                    &&& *final(connection) == final(self).connection
                    &&& match migrated {
                        Err(failure) => migration_failed(failure, prepared),
                        Ok(()) => pragmas_set(&final(self).connection, prepared),
                    }
                },
            prepared is Err ==> prepared->Err_0.kind == ErrorKind::Store || prepared->Err_0.kind
                == ErrorKind::Migration,
    {
        let migrated = apply_migrations(&mut self.connection, steps);
        match migrated {
            Ok(()) => {},
            Err(failure) => {
                let ghost failed = failure;
                let inside = store_failure(failure);
                assert(call_ensures(store_failure, (failed,), inside));
                let prepared = match inside {
                    Some(error) => {
                        let converted = DatabaseError::from_store(&error);
                        assert(call_ensures(DatabaseError::from_store, (&error,), converted));
                        Err(converted)
                    },
                    None => Err(
                        DatabaseError::internal(
                            ErrorKind::Migration,
                            "the migrations cannot be applied",
                        ),
                    ),
                };
                assert(migration_failed(failed, prepared));
                return prepared;
            },
        }
        let journal = set_pragma(&self.connection, "journal_mode", "WAL");
        let ghost journal_given = journal;
        assert(call_ensures(
            set_pragma,
            (&self.connection, "journal_mode", "WAL"),
            journal_given,
        ));
        match journal {
            Ok(()) => {},
            Err(error) => {
                let prepared = convert(Err(error));
                assert(pragmas_set(&self.connection, prepared));
                return prepared;
            },
        }
        let enforced = set_pragma(&self.connection, "foreign_keys", "ON");
        let ghost enforced_given = enforced;
        assert(call_ensures(
            set_pragma,
            (&self.connection, "foreign_keys", "ON"),
            enforced_given,
        ));
        let prepared = convert(enforced);
        assert(pragmas_set(&self.connection, prepared));
        prepared
    }

    /// A database in memory, prepared with the given steps of the schema's
    /// history.
    pub fn in_memory_with(steps: &Vec<Migration>) -> (database: Result<Self, DatabaseError>)
        ensures
            exists|raw: Result<rusqlite::Connection, rusqlite::Error>|
                {
                    &&& #[trigger] call_ensures(rusqlite::Connection::open_in_memory, (), raw)
                    &&& raw is Err ==> converted(
                        Err::<Database, rusqlite::Error>(raw->Err_0),
                        database,
                    )
                    &&& raw is Ok ==> exists|
                        opened: &mut Database,
                        prepared: Result<(), DatabaseError>,
                    |
                        {
                            &&& #[trigger] Database::prepares(opened, steps, prepared)
                            &&& *opened.connection() == raw->Ok_0
                            &&& prepared is Ok ==> database == Ok::<Database, DatabaseError>(
                                *final(opened),
                            )
                            &&& prepared is Err ==> database == Err::<Database, DatabaseError>(
                                prepared->Err_0,
                            )
                        }
                },
            database is Err ==> database->Err_0.kind == ErrorKind::Store || database->Err_0.kind
                == ErrorKind::Migration,
    {
        let raw = rusqlite::Connection::open_in_memory();
        let ghost given = raw;
        assert(call_ensures(rusqlite::Connection::open_in_memory, (), given));
        let database = Database::prepared_from(raw, steps);
        proof {
            if given is Ok {
                let (opened, prepared) = choose|
                    opened: &mut Database,
                    prepared: Result<(), DatabaseError>,
                |
                    {
                        &&& #[trigger] call_ensures(
                            Database::prepare_connection,
                            (opened, steps),
                            prepared,
                        )
                        &&& *opened.connection() == given->Ok_0
                        &&& prepared is Ok ==> database == Ok::<Database, DatabaseError>(
                            *final(opened),
                        )
                        &&& prepared is Err ==> database == Err::<Database, DatabaseError>(
                            prepared->Err_0,
                        )
                    };
                assert(Database::prepares(opened, steps, prepared));
            }
        }
        database
    }

    /// The database in the file at `path`, which is created where there is
    /// none, prepared with the given steps of the schema's history.
    pub fn open_with(path: &str, steps: &Vec<Migration>) -> (database: Result<
        Self,
        DatabaseError,
    >)
        ensures
            exists|raw: Result<rusqlite::Connection, rusqlite::Error>|
                {
                    &&& #[trigger] Database::binding_opens(path, raw)
                    &&& raw is Err ==> converted(
                        Err::<Database, rusqlite::Error>(raw->Err_0),
                        database,
                    )
                    &&& raw is Ok ==> exists|
                        opened: &mut Database,
                        prepared: Result<(), DatabaseError>,
                    |
                        {
                            &&& #[trigger] Database::prepares(opened, steps, prepared)
                            &&& *opened.connection() == raw->Ok_0
                            &&& prepared is Ok ==> database == Ok::<Database, DatabaseError>(
                                *final(opened),
                            )
                            &&& prepared is Err ==> database == Err::<Database, DatabaseError>(
                                prepared->Err_0,
                            )
                        }
                },
            database is Err ==> database->Err_0.kind == ErrorKind::Store || database->Err_0.kind
                == ErrorKind::Migration,
    {
        let raw = open_file(path);
        let ghost given = raw;
        assert(Database::binding_opens(path, given));
        let database = Database::prepared_from(raw, steps);
        proof {
            if given is Ok {
                let (opened, prepared) = choose|
                    opened: &mut Database,
                    prepared: Result<(), DatabaseError>,
                |
                    {
                        &&& #[trigger] call_ensures(
                            Database::prepare_connection,
                            (opened, steps),
                            prepared,
                        )
                        &&& *opened.connection() == given->Ok_0
                        &&& prepared is Ok ==> database == Ok::<Database, DatabaseError>(
                            *final(opened),
                        )
                        &&& prepared is Err ==> database == Err::<Database, DatabaseError>(
                            prepared->Err_0,
                        )
                    };
                assert(Database::prepares(opened, steps, prepared));
            }
        }
        database
    }

    /// Whether `raw` is what the binding gives when the file at `path` is
    /// opened.
    pub closed spec fn binding_opens(
        path: &str,
        raw: Result<rusqlite::Connection, rusqlite::Error>,
    ) -> bool {
        call_ensures(open_file, (path,), raw)
    }

    /// Whether `prepared` is the outcome of preparing the database behind
    /// `opened` with the given steps: the schema is brought up to date, then
    /// write-ahead logging and the enforcement of foreign keys are switched
    /// on, in this order, and the first failure ends the preparation.
    pub closed spec fn prepares(
        opened: &mut Database,
        steps: &Vec<Migration>,
        prepared: Result<(), DatabaseError>,
    ) -> bool {
        call_ensures(Database::prepare_connection, (opened, steps), prepared)
    }

    /// The database on a connection that the binding opened, prepared with
    /// the given steps: the failure of the opening as the library's error,
    /// the failure of the preparation as it is, and else the database on
    /// the connection as the preparation left it.
    fn prepared_from(
        raw: Result<rusqlite::Connection, rusqlite::Error>,
        steps: &Vec<Migration>,
    ) -> (database: Result<Self, DatabaseError>)
        ensures
            raw is Err ==> converted(Err::<Database, rusqlite::Error>(raw->Err_0), database),
            raw is Ok ==> exists|opened: &mut Database, prepared: Result<(), DatabaseError>|
                {
                    &&& #[trigger] call_ensures(
                        Database::prepare_connection,
                        (opened, steps),
                        prepared,
                    )
                    &&& *opened.connection() == raw->Ok_0
                    &&& prepared is Ok ==> database == Ok::<Database, DatabaseError>(
                        *final(opened),
                    )
                    &&& prepared is Err ==> database == Err::<Database, DatabaseError>(
                        prepared->Err_0,
                    )
                },
            database is Err ==> database->Err_0.kind == ErrorKind::Store || database->Err_0.kind
                == ErrorKind::Migration,
    {
        match raw {
            Ok(connection) => {
                let mut database = Database { connection };
                let prepared = database.prepare_connection(steps);
                match prepared {
                    Ok(()) => Ok(database),
                    Err(error) => Err(error),
                }
            },
            Err(error) => {
                let converted = DatabaseError::from_store(&error);
                assert(call_ensures(DatabaseError::from_store, (&error,), converted));
                Err(converted)
            },
        }
    }

    /// Whether `valid` is what the migration library finds when it applies
    /// the steps to an empty database in memory.
    pub closed spec fn validated(steps: &Vec<Migration>, valid: bool) -> bool {
        call_ensures(validate_migrations, (steps,), valid)
    }

    /// Whether the given steps can all be applied to an empty database, as
    /// the migration library finds it.
    pub fn validate(steps: &Vec<Migration>) -> (valid: bool)
        ensures
            Self::validated(steps, valid),
    {
        let valid = validate_migrations(steps);
        assert(call_ensures(validate_migrations, (steps,), valid));
        valid
    }

    /// A bare database in memory, with no table in it: the connection that
    /// the binding opens, or the library's error for its failure.
    pub fn plain() -> (database: Result<Self, DatabaseError>)
        ensures
            exists|raw: Result<rusqlite::Connection, rusqlite::Error>|
                {
                    &&& #[trigger] call_ensures(rusqlite::Connection::open_in_memory, (), raw)
                    &&& match raw {
                        Ok(connection) => database is Ok && *database->Ok_0.connection()
                            == connection,
                        Err(error) => database is Err && call_ensures(
                            DatabaseError::from_store,
                            (&error,),
                            database->Err_0,
                        ),
                    }
                },
            database is Err ==> database->Err_0.kind == ErrorKind::Store,
    {
        let raw = rusqlite::Connection::open_in_memory();
        let ghost opened = raw;
        assert(call_ensures(rusqlite::Connection::open_in_memory, (), opened));
        match raw {
            Ok(connection) => Ok(Database { connection }),
            Err(error) => {
                let converted = DatabaseError::from_store(&error);
                assert(call_ensures(DatabaseError::from_store, (&error,), converted));
                Err(converted)
            },
        }
    }

    /// Whether `raw` is what the binding gives when the statement is
    /// executed on the connection with the values bound in order.
    pub closed spec fn binding_executes(
        &self,
        statement: &str,
        params: &Vec<SqlValue>,
        raw: Result<usize, rusqlite::Error>,
    ) -> bool {
        call_ensures(execute, (&self.connection, statement, params), raw)
    }

    /// Run a statement with the given values bound to its placeholders, and
    /// give the number of rows that it changed: what the binding gives for
    /// the statement and the values, with a failure as the library's error.
    /// Values that cannot be bound are refused before the store is asked.
    pub fn execute(&self, statement: &str, params: &Vec<SqlValue>) -> (changed: Result<
        usize,
        DatabaseError,
    >)
        ensures
            !bindable(row_view(params@)) ==> refused_unbound(changed),
            bindable(row_view(params@)) ==> exists|raw: Result<usize, rusqlite::Error>|
                #[trigger] self.binding_executes(statement, params, raw) && converted(
                    raw,
                    changed,
                ),
            changed is Err && bindable(row_view(params@)) ==> changed->Err_0.kind
                == ErrorKind::Store,
    {
        if !all_bindable(params) {
            return Err(DatabaseError::internal(ErrorKind::Conversion, UNBOUND));
        }
        let raw = execute(&self.connection, statement, params);
        let ghost given = raw;
        assert(self.binding_executes(statement, params, given));
        let changed = convert(raw);
        assert(converted(given, changed));
        changed
    }

    /// Run an insert statement and give the row id that the store assigned.
    /// The statement is executed as [`Database::execute`] does it: where
    /// that fails, its failure is given, and where it goes well, the row id
    /// of the last insert on the connection.
    pub fn insert(&self, statement: &str, params: &Vec<SqlValue>) -> (id: Result<
        i64,
        DatabaseError,
    >)
        ensures
            match id {
                Ok(id) => exists|changed: usize|
                    #[trigger] call_ensures(
                        Database::execute,
                        (self, statement, params),
                        Ok::<usize, DatabaseError>(changed),
                    ) && call_ensures(
                        rusqlite::Connection::last_insert_rowid,
                        (self.connection(),),
                        id,
                    ),
                Err(error) => call_ensures(
                    Database::execute,
                    (self, statement, params),
                    Err::<usize, DatabaseError>(error),
                ),
            },
            !bindable(row_view(params@)) ==> refused_unbound(id),
            id is Err && bindable(row_view(params@)) ==> id->Err_0.kind == ErrorKind::Store,
    {
        let outcome = self.execute(statement, params);
        assert(call_ensures(Database::execute, (self, statement, params), outcome));
        match outcome {
            Ok(changed) => {
                let id = self.connection.last_insert_rowid();
                assert(call_ensures(
                    Database::execute,
                    (self, statement, params),
                    Ok::<usize, DatabaseError>(changed),
                ));
                assert(call_ensures(
                    rusqlite::Connection::last_insert_rowid,
                    (self.connection(),),
                    id,
                ));
                Ok(id)
            },
            Err(error) => Err(error),
        }
    }

    /// The connection to SQLite.
    pub closed spec fn connection(&self) -> &rusqlite::Connection {
        &self.connection
    }

    /// Whether `raw` is what the binding gives when the query is run on the
    /// connection with the values bound in order and every row is read.
    pub closed spec fn binding_queries(
        &self,
        statement: &str,
        params: &Vec<SqlValue>,
        raw: Result<Vec<Option<Vec<SqlValue>>>, rusqlite::Error>,
    ) -> bool {
        call_ensures(run_query, (&self.connection, statement, params), raw)
    }

    /// Run a query and give its rows as they are, with `None` in place of a
    /// row that could not be read: what the binding gives for the statement
    /// and the values, with a failure as the library's error. Values that
    /// cannot be bound are refused before the store is asked.
    pub fn query(&self, statement: &str, params: &Vec<SqlValue>) -> (rows: Result<
        Vec<Option<Vec<SqlValue>>>,
        DatabaseError,
    >)
        ensures
            !bindable(row_view(params@)) ==> refused_unbound(rows),
            bindable(row_view(params@)) ==> exists|
                raw: Result<Vec<Option<Vec<SqlValue>>>, rusqlite::Error>,
            | #[trigger] self.binding_queries(statement, params, raw) && converted(raw, rows),
            rows is Err && bindable(row_view(params@)) ==> rows->Err_0.kind == ErrorKind::Store,
    {
        if !all_bindable(params) {
            return Err(DatabaseError::internal(ErrorKind::Conversion, UNBOUND));
        }
        let raw = run_query(&self.connection, statement, params);
        let ghost given = raw;
        assert(self.binding_queries(statement, params, given));
        let rows = convert(raw);
        assert(converted(given, rows));
        rows
    }

    /// Run a query and decode every row, leaving out the rows that cannot be
    /// read or decoded.
    pub fn query_all<T, F: Fn(&Vec<SqlValue>) -> Option<T>>(
        &self,
        statement: &str,
        params: &Vec<SqlValue>,
        decode: F,
    ) -> (items: Result<Vec<T>, DatabaseError>)
        requires
            forall|row: &Vec<SqlValue>| call_requires(decode, (row,)),
        ensures
            exists|found: Result<Vec<Option<Vec<SqlValue>>>, DatabaseError>|
                {
                    &&& #[trigger] call_ensures(Database::query, (self, statement, params), found)
                    &&& found is Ok ==> items is Ok && decoded_rows(
                        found->Ok_0@,
                        decode,
                        items->Ok_0@,
                    )
                    &&& found is Err ==> items == Err::<Vec<T>, DatabaseError>(found->Err_0)
                },
            items is Ok ==> exists|rows: Seq<Option<Vec<SqlValue>>>| #[trigger]
                decoded_rows(rows, decode, items->Ok_0@),
            !bindable(row_view(params@)) ==> refused_unbound(items),
            items is Err && bindable(row_view(params@)) ==> items->Err_0.kind
                == ErrorKind::Store,
    {
        let found = self.query(statement, params);
        let ghost given = found;
        assert(call_ensures(Database::query, (self, statement, params), given));
        match found {
            Ok(rows) => {
                let decoded = decode_rows(&rows, decode);
                assert(decoded_rows(rows@, decode, decoded@));
                assert(exists|raw: Seq<Option<Vec<SqlValue>>>| #[trigger]
                    decoded_rows(raw, decode, decoded@));
                let items = Ok(decoded);
                assert(items->Ok_0@ == decoded@);
                items
            },
            Err(error) => Err(error),
        }
    }

    /// Run a query for at most one row and decode the first row: nothing
    /// where the query gives no row, and a conversion error where the first
    /// row cannot be read or decoded.
    pub fn query_optional<T, F: Fn(&Vec<SqlValue>) -> Option<T>>(
        &self,
        statement: &str,
        params: &Vec<SqlValue>,
        decode: F,
    ) -> (item: Result<Option<T>, DatabaseError>)
        requires
            forall|row: &Vec<SqlValue>| call_requires(decode, (row,)),
        ensures
            exists|found: Result<Vec<Option<Vec<SqlValue>>>, DatabaseError>|
                {
                    &&& #[trigger] call_ensures(Database::query, (self, statement, params), found)
                    &&& found is Ok ==> decoded_first(found->Ok_0@, decode, item)
                    &&& found is Err ==> item == Err::<Option<T>, DatabaseError>(found->Err_0)
                },
            item is Ok ==> exists|rows: Seq<Option<Vec<SqlValue>>>| #[trigger]
                decoded_first(rows, decode, item),
            !bindable(row_view(params@)) ==> refused_unbound(item),
            item is Err ==> item->Err_0.kind == ErrorKind::Store || item->Err_0.kind
                == ErrorKind::Conversion,
    {
        let found = self.query(statement, params);
        let ghost given = found;
        assert(call_ensures(Database::query, (self, statement, params), given));
        match found {
            Ok(rows) => {
                let item = decode_first(&rows, decode);
                assert(decoded_first(rows@, decode, item));
                item
            },
            Err(error) => Err(error),
        }
    }

    /// Run a query for exactly one row and decode the first row. That the
    /// query gives no row is an error of its own kind.
    pub fn query_one<T, F: Fn(&Vec<SqlValue>) -> Option<T>>(
        &self,
        statement: &str,
        params: &Vec<SqlValue>,
        decode: F,
    ) -> (item: Result<T, DatabaseError>)
        requires
            forall|row: &Vec<SqlValue>| call_requires(decode, (row,)),
        ensures
            exists|first: Result<Option<T>, DatabaseError>|
                {
                    &&& #[trigger] call_ensures(
                        Database::query_optional,
                        (self, statement, params, decode),
                        first,
                    )
                    &&& match first {
                        Ok(Some(found)) => item == Ok::<T, DatabaseError>(found),
                        Ok(None) => item is Err && item->Err_0.kind == ErrorKind::NotFound
                            && item->Err_0.code is None,
                        Err(error) => item == Err::<T, DatabaseError>(error),
                    }
                },
            item is Ok ==> exists|rows: Seq<Option<Vec<SqlValue>>>| #[trigger]
                decoded_first(rows, decode, Ok::<Option<T>, DatabaseError>(Some(item->Ok_0))),
            !bindable(row_view(params@)) ==> refused_unbound(item),
            item is Err ==> item->Err_0.kind == ErrorKind::Store || item->Err_0.kind
                == ErrorKind::Conversion || item->Err_0.kind == ErrorKind::NotFound,
    {
        let first = self.query_optional(statement, params, decode);
        let ghost given = first;
        assert(call_ensures(Database::query_optional, (self, statement, params, decode), given));
        match first {
            Ok(Some(item)) => {
                let ghost shown = Ok::<Option<T>, DatabaseError>(Some(item));
                let outcome = Ok(item);
                assert(Ok::<Option<T>, DatabaseError>(Some(outcome->Ok_0)) == shown);
                outcome
            },
            Ok(None) => Err(DatabaseError::internal(ErrorKind::NotFound, "the query gave no row")),
            Err(error) => Err(error),
        }
    }

    /// Whether `raw` is what the binding gives when the blob in the given
    /// row and column of the table is opened for reading and read whole.
    pub closed spec fn binding_reads(
        &self,
        table: &str,
        column: &str,
        row: i64,
        raw: Result<Vec<u8>, rusqlite::Error>,
    ) -> bool {
        call_ensures(read_blob, (&self.connection, table, column, row), raw)
    }

    /// Read a whole binary large object: what the binding gives for the
    /// table, column and row, with a failure as the library's error.
    pub fn open_blob(&self, table: &str, column: &str, row: i64) -> (bytes: Result<
        Vec<u8>,
        DatabaseError,
    >)
        ensures
            exists|raw: Result<Vec<u8>, rusqlite::Error>|
                #[trigger] self.binding_reads(table, column, row, raw) && converted(raw, bytes),
            bytes is Err ==> bytes->Err_0.kind == ErrorKind::Store,
    {
        let raw = read_blob(&self.connection, table, column, row);
        let ghost given = raw;
        assert(self.binding_reads(table, column, row, given));
        let bytes = convert(raw);
        assert(converted(given, bytes));
        bytes
    }
}

} // verus!
