//! The contracts that a storable type fulfils.
use vstd::prelude::*;

use super::dependency::{
    created_in_order, in_order, lemma_schedule_in_order, statements, Dependency, DependencyView,
};
use super::error::{DatabaseError, ErrorKind};
use super::primary_key::PrimaryKey;
use super::record::Record;
use super::schema::names_view;
use super::sqlite::{inserted, queried, Database};
use super::value::{bindable, row_view, SqlValue, SqlValueView};
use crate::text::{from_chars, push_str, separator_free};
use crate::util::pagination::Pagination;

verus! {

/// Whether a table name can stand between the slashes of an identifier's
/// text: it holds no slash itself.
pub open spec fn path_safe(name: Seq<char>) -> bool {
    separator_free(name, '/', '/')
}

/// A type whose values are stored in a table of their own.
pub trait DatabaseEntry: Sized {
    /// The name of the table.
    spec fn table_name_spec() -> Seq<char>;

    /// The statement that creates the table.
    spec fn statement_create_table_spec() -> Seq<char>;

    /// The tables that must exist before this one is created.
    spec fn depends_on_spec() -> DependencyView;

    /// The name of the table.
    fn table_name() -> (name: &'static str)
        ensures
            name@ == Self::table_name_spec(),
    ;

    /// The statement that creates the table, unless it exists.
    fn statement_create_table() -> (statement: String)
        ensures
            statement@ == Self::statement_create_table_spec(),
    ;

    /// The tables that must exist before this one is created.
    fn depends_on() -> (dependencies: Dependency)
        ensures
            dependencies@ == Self::depends_on_spec(),
    ;

    /// The table name holds no slash.
    proof fn lemma_table_name()
        ensures
            path_safe(Self::table_name_spec()),
    ;

    /// The table with what it needs, as a dependency of another table.
    fn dependency() -> (dependency: Dependency)
        ensures
            dependency@ == (DependencyView::Entry {
                table_name: Self::table_name_spec(),
                statement: Self::statement_create_table_spec(),
                depends_on: Box::new(Self::depends_on_spec()),
            }),
    {
        Dependency::Entry {
            table_name: Self::table_name(),
            statement: Self::statement_create_table(),
            depends_on: Box::new(Self::depends_on()),
        }
    }

    /// Create the table and, before it, every table that it needs: the
    /// statements of the schedule of the table are executed on the store one
    /// by one, and the first failure of the store ends the creation.
    fn create_table(database: &Database) -> (created: Result<(), DatabaseError>)
        ensures
            created_in_order(
                database,
                statements(
                    (DependencyView::Entry {
                        table_name: Self::table_name_spec(),
                        statement: Self::statement_create_table_spec(),
                        depends_on: Box::new(Self::depends_on_spec()),
                    }).schedule(),
                ),
                created,
            ),
            created is Err ==> created->Err_0.kind == ErrorKind::Store,
    {
        Self::dependency().create_dependencies(database)
    }
}

/// The table of `T` with what it needs.
pub open spec fn dependency_of<T: DatabaseEntry>() -> DependencyView {
    DependencyView::Entry {
        table_name: T::table_name_spec(),
        statement: T::statement_create_table_spec(),
        depends_on: Box::new(T::depends_on_spec()),
    }
}

/// When the table of `T` is created, every table is created after the
/// tables that it needs, and the table of `T` itself comes last.
pub proof fn lemma_create_table_order<T: DatabaseEntry>()
    ensures
        in_order(dependency_of::<T>().schedule()),
        dependency_of::<T>().schedule().len() > 0,
        dependency_of::<T>().schedule().last().table_name == T::table_name_spec(),
        dependency_of::<T>().schedule().last().statement == T::statement_create_table_spec(),
        dependency_of::<T>().schedule().last().needs == T::depends_on_spec().tables(),
{
    lemma_schedule_in_order(dependency_of::<T>());
}

/// A stored type whose rows are found by a single integer key.
pub trait Indexable: DatabaseEntry {

}

/// A type that makes an example value of itself, which may need rows of
/// other tables to refer to.
pub trait DefaultGenerator: Sized {
    /// An example value, with the rows that it refers to inserted.
    fn create_default(database: &Database) -> (example: Result<Self, DatabaseError>);
}

impl<T: DatabaseEntry + Default> DefaultGenerator for T {
    /// The default value, which needs nothing of the store.
    fn create_default(database: &Database) -> (example: Result<Self, DatabaseError>)
        ensures
            example is Ok,
            call_ensures(T::default, (), example->Ok_0),
    {
        Ok(T::default())
    }
}

/// The row that is read back for a value stored under the key `id`: the key
/// and then the stored fields.
pub open spec fn stored_row(id: i64, fields: Seq<SqlValueView>) -> Seq<SqlValueView> {
    seq![SqlValueView::Integer(id)] + fields
}

/// A value that can be inserted as a row of its table.
pub trait Insertable: DatabaseEntry + Indexable + DefaultGenerator {
    /// The statement that inserts a row, without its key.
    spec fn statement_insert_spec() -> Seq<char>;

    /// The values of the fields in the order of the insert statement's
    /// placeholders, where all of them can be stored.
    spec fn fields(&self) -> Option<Seq<SqlValueView>>;

    /// The statement that inserts a row, without its key.
    fn statement_insert() -> (statement: String)
        ensures
            statement@ == Self::statement_insert_spec(),
    ;

    /// The values to bind to the insert statement.
    fn serialize_sql(&self) -> (params: Option<Vec<SqlValue>>)
        ensures
            params is Some <==> self.fields() is Some,
            params is Some ==> row_view(params->0@) == self.fields()->0,
            params is Some ==> bindable(row_view(params->0@)),
    ;

    /// Insert the value and give the key that the store assigned. A value
    /// with a field that cannot be stored is refused before the store is
    /// asked. Any other value is inserted by the insert statement of the
    /// type with the value's fields bound in their order: the key holds the
    /// row id that the insertion gave, and a failure of the insertion is
    /// the failure of the call.
    fn insert(&self, database: &Database) -> (key: Result<PrimaryKey<Self>, DatabaseError>)
        ensures
            self.fields() is None ==> key is Err && key->Err_0.kind == ErrorKind::Conversion
                && key->Err_0.code is None,
            self.fields() is Some ==> exists|given: Result<i64, DatabaseError>|
                {
                    &&& #[trigger] inserted(
                        database,
                        Self::statement_insert_spec(),
                        self.fields()->0,
                        given,
                    )
                    &&& given is Ok ==> key is Ok && key->Ok_0.0 == given->Ok_0
                    &&& given is Err ==> key == Err::<PrimaryKey<Self>, DatabaseError>(
                        given->Err_0,
                    )
                },
            self.fields() is Some && key is Err ==> key->Err_0.kind == ErrorKind::Store,
    {
        match self.serialize_sql() {
            None => Err(DatabaseError::internal(ErrorKind::Conversion, "a field cannot be stored")),
            Some(params) => {
                let statement = Self::statement_insert();
                let text = statement.as_str();
                let given = database.insert(text, &params);
                let ghost outcome = given;
                proof {
                    assert(call_ensures(Database::insert, (database, text, &params), outcome));
                    assert(inserted(
                        database,
                        Self::statement_insert_spec(),
                        self.fields()->0,
                        outcome,
                    ));
                }
                match given {
                    Ok(id) => Ok(PrimaryKey(id, core::marker::PhantomData)),
                    Err(error) => Err(error),
                }
            },
        }
    }

    /// Insert the value and give it back with its key: the key is the one
    /// that [`Insertable::insert`] gives for the value, and its failure is
    /// the failure of the call.
    fn insert_record(self, database: &Database) -> (record: Result<Record<Self>, DatabaseError>)
        ensures
            exists|key: Result<PrimaryKey<Self>, DatabaseError>|
                {
                    &&& #[trigger] call_ensures(Self::insert, (&self, database), key)
                    &&& key is Ok ==> record == Ok::<Record<Self>, DatabaseError>(
                        (Record { identifier: key->Ok_0, value: self }),
                    )
                    &&& key is Err ==> record == Err::<Record<Self>, DatabaseError>(key->Err_0)
                },
            record is Ok ==> record->Ok_0.value == self,
            self.fields() is None ==> record is Err && record->Err_0.kind
                == ErrorKind::Conversion,
            self.fields() is Some && record is Err ==> record->Err_0.kind == ErrorKind::Store,
    {
        let key = self.insert(database);
        let ghost given = key;
        assert(call_ensures(Self::insert, (&self, database), given));
        match key {
            Ok(identifier) => Ok(Record { identifier, value: self }),
            Err(error) => Err(error),
        }
    }
}

/// Whether `key` is the outcome of inserting what was made: the failure of
/// the making, or what the insertion of the value gives.
pub open spec fn made_and_inserted<T: Insertable>(
    database: &Database,
    made: Result<T, DatabaseError>,
    key: Result<PrimaryKey<T>, DatabaseError>,
) -> bool {
    match made {
        Err(error) => key == Err::<PrimaryKey<T>, DatabaseError>(error),
        Ok(value) => call_ensures(T::insert, (&value, database), key),
    }
}

/// Insert what was made, unless the making failed, and give the key.
pub fn insert_made<T: Insertable>(database: &Database, made: Result<T, DatabaseError>) -> (key:
    Result<PrimaryKey<T>, DatabaseError>)
    ensures
        made_and_inserted(database, made, key),
        made is Ok && made->Ok_0.fields() is None ==> key is Err && key->Err_0.kind
            == ErrorKind::Conversion,
        made is Ok && made->Ok_0.fields() is Some && key is Err ==> key->Err_0.kind
            == ErrorKind::Store,
{
    match made {
        Ok(value) => {
            let key = value.insert(database);
            assert(call_ensures(T::insert, (&value, database), key));
            key
        },
        Err(error) => Err(error),
    }
}

/// A type with a fixed list of column names by which its rows may be
/// sorted. Only a name from this list ever stands in a statement.
pub trait Sortable: Sized {
    /// The names of the columns by which the rows may be sorted.
    spec fn sortable_columns_spec() -> Seq<Seq<char>>;

    /// The names of the columns by which the rows may be sorted.
    fn sortable_columns() -> (names: Vec<&'static str>)
        ensures
            names_view(names@) == Self::sortable_columns_spec(),
    ;

    /// There is a column to sort by.
    proof fn lemma_sortable_columns()
        ensures
            Self::sortable_columns_spec().len() > 0,
    ;
}

/// A type that is read from the rows of a query.
pub trait Decodable: Sized {
    /// What a row is handed out as. It holds nothing that must not leave
    /// the store.
    type Output;

    /// Whether a row of the select statement can be read.
    spec fn accepts(row: Seq<SqlValueView>) -> bool;

    /// Whether `output` is what the row reads as.
    spec fn decodes(row: Seq<SqlValueView>, output: Self::Output) -> bool;

    /// Read one row of the select statement.
    fn deserialize_sql(row: &Vec<SqlValue>) -> (output: Option<Self::Output>)
        ensures
            output is Some <==> Self::accepts(row_view(row@)),
            output is Some ==> Self::decodes(row_view(row@), output->0),
    ;
}

/// How the rows of a query relate to the values selected from them: every
/// row that was read and that `T` accepts gives one value, in the order of
/// the rows; a row that was not read or is not accepted gives none.
pub open spec fn selected<T: Decodable>(
    rows: Seq<Option<Vec<SqlValue>>>,
    outputs: Seq<T::Output>,
) -> bool
    decreases rows.len(),
{
    if rows.len() == 0 {
        outputs.len() == 0
    } else {
        match rows.last() {
            Some(row) => if T::accepts(row_view(row@)) {
                outputs.len() > 0 && T::decodes(row_view(row@), outputs.last()) && selected::<T>(
                    rows.drop_last(),
                    outputs.drop_last(),
                )
            } else {
                selected::<T>(rows.drop_last(), outputs)
            },
            None => selected::<T>(rows.drop_last(), outputs),
        }
    }
}

/// How the rows of a query for a single row relate to the outcome: no row
/// gives nothing, a first row that `T` accepts gives its value, and a first
/// row that was not read or is not accepted gives a conversion error.
pub open spec fn selected_first<T: Decodable>(
    rows: Seq<Option<Vec<SqlValue>>>,
    outcome: Result<Option<T::Output>, DatabaseError>,
) -> bool {
    if rows.len() == 0 {
        outcome is Ok && outcome->Ok_0 is None
    } else if rows[0] is Some && T::accepts(row_view(rows[0]->0@)) {
        outcome is Ok && outcome->Ok_0 is Some && T::decodes(
            row_view(rows[0]->0@),
            outcome->Ok_0->0,
        )
    } else {
        outcome is Err && outcome->Err_0.kind == ErrorKind::Conversion
    }
}

/// How the rows of a query for exactly one row relate to the outcome: no
/// row gives an error of the kind not found, a first row that `T` accepts
/// gives its value, and a first row that was not read or is not accepted
/// gives a conversion error.
pub open spec fn selected_one<T: Decodable>(
    rows: Seq<Option<Vec<SqlValue>>>,
    outcome: Result<T::Output, DatabaseError>,
) -> bool {
    if rows.len() == 0 {
        outcome is Err && outcome->Err_0.kind == ErrorKind::NotFound
    } else if rows[0] is Some && T::accepts(row_view(rows[0]->0@)) {
        outcome is Ok && T::decodes(row_view(rows[0]->0@), outcome->Ok_0)
    } else {
        outcome is Err && outcome->Err_0.kind == ErrorKind::Conversion
    }
}

/// Whether `outputs` is what the rows of the statement `statement`, run on
/// `database` with the values `params` bound, are selected as: every row
/// that was read and that `T` accepts gives one value, in the order of the
/// rows, and a failure of the query is the failure of the selection.
pub open spec fn selected_by<T: Decodable>(
    database: &Database,
    statement: Seq<char>,
    params: Seq<SqlValueView>,
    outputs: Result<Vec<T::Output>, DatabaseError>,
) -> bool {
    exists|found: Result<Vec<Option<Vec<SqlValue>>>, DatabaseError>|
        {
            &&& #[trigger] queried(database, statement, params, found)
            &&& found is Ok ==> outputs is Ok && selected::<T>(found->Ok_0@, outputs->Ok_0@)
            &&& found is Err ==> outputs == Err::<Vec<T::Output>, DatabaseError>(found->Err_0)
        }
}

/// Whether `outcome` is what the first row of the statement `statement`,
/// run on `database` with the values `params` bound, is selected as. A
/// failure of the query is the failure of the selection.
pub open spec fn first_selected_by<T: Decodable>(
    database: &Database,
    statement: Seq<char>,
    params: Seq<SqlValueView>,
    outcome: Result<Option<T::Output>, DatabaseError>,
) -> bool {
    exists|found: Result<Vec<Option<Vec<SqlValue>>>, DatabaseError>|
        {
            &&& #[trigger] queried(database, statement, params, found)
            &&& found is Ok ==> selected_first::<T>(found->Ok_0@, outcome)
            &&& found is Err ==> outcome == Err::<Option<T::Output>, DatabaseError>(found->Err_0)
        }
}

/// Read every row of a query, leaving out each row that was not read or
/// cannot be decoded.
pub fn deserialize_all<T: Decodable>(rows: &Vec<Option<Vec<SqlValue>>>) -> (outputs: Vec<
    T::Output,
>)
    ensures
        selected::<T>(rows@, outputs@),
{
    let mut outputs: Vec<T::Output> = Vec::new();
    let mut i: usize = 0;
    assert(rows@.subrange(0, 0).len() == 0);
    while i < rows.len()
        invariant
            i <= rows.len(),
            selected::<T>(rows@.subrange(0, i as int), outputs@),
        decreases rows.len() - i,
    {
        let ghost before = outputs@;
        let ghost next = rows@.subrange(0, i + 1);
        assert(next.drop_last() == rows@.subrange(0, i as int));
        assert(next.last() == rows@[i as int]);
        if let Some(row) = &rows[i] {
            if let Some(output) = T::deserialize_sql(row) {
                outputs.push(output);
                assert(outputs@.drop_last() == before);
            }
        }
        i += 1;
    }
    assert(rows@.subrange(0, i as int) == rows@);
    outputs
}

/// Read the first row of a query for a single row.
pub fn deserialize_first<T: Decodable>(rows: &Vec<Option<Vec<SqlValue>>>) -> (outcome: Result<
    Option<T::Output>,
    DatabaseError,
>)
    ensures
        selected_first::<T>(rows@, outcome),
{
    if rows.len() == 0 {
        return Ok(None);
    }
    if let Some(row) = &rows[0] {
        if let Some(output) = T::deserialize_sql(row) {
            return Ok(Some(output));
        }
    }
    Err(DatabaseError::internal(ErrorKind::Conversion, "the row cannot be decoded"))
}

/// A stored type whose rows can be listed.
pub trait Selectable: DatabaseEntry + Indexable + Sortable + Decodable {
    /// The statement that selects every row.
    spec fn statement_select_all_spec() -> Seq<char>;

    /// The statement that selects every row.
    fn statement_select_all() -> (statement: String)
        ensures
            statement@ == Self::statement_select_all_spec(),
    ;

    /// Select every row of the table. A row that cannot be decoded is left
    /// out.
    fn select_all(database: &Database) -> (outputs: Result<Vec<Self::Output>, DatabaseError>)
        ensures
            exists|found: Result<Vec<Option<Vec<SqlValue>>>, DatabaseError>|
                {
                    &&& #[trigger] queried(
                        database,
                        Self::statement_select_all_spec(),
                        Seq::<SqlValueView>::empty(),
                        found,
                    )
                    &&& found is Ok ==> outputs is Ok && selected::<Self>(
                        found->Ok_0@,
                        outputs->Ok_0@,
                    )
                    &&& found is Err ==> outputs == Err::<Vec<Self::Output>, DatabaseError>(
                        found->Err_0,
                    )
                },
            outputs is Ok ==> exists|rows: Seq<Option<Vec<SqlValue>>>| #[trigger]
                selected::<Self>(rows, outputs->Ok_0@),
            outputs is Err ==> outputs->Err_0.kind == ErrorKind::Store,
    {
        let statement = Self::statement_select_all();
        let text = statement.as_str();
        let params: Vec<SqlValue> = Vec::new();
        let found = database.query(text, &params);
        let ghost given = found;
        proof {
            assert(row_view(params@) =~= Seq::<SqlValueView>::empty());
            assert(call_ensures(Database::query, (database, text, &params), given));
            assert(queried(
                database,
                Self::statement_select_all_spec(),
                Seq::<SqlValueView>::empty(),
                given,
            ));
        }
        match found {
            Ok(rows) => {
                let decoded = deserialize_all::<Self>(&rows);
                assert(selected::<Self>(rows@, decoded@));
                let outputs = Ok(decoded);
                assert(outputs->Ok_0@ == decoded@);
                outputs
            },
            Err(error) => Err(error),
        }
    }

    /// The statement that selects one page of the rows: the statement that
    /// selects every row, a blank and the clause of the page.
    fn statement_select_sorted(selection: Pagination<Self>) -> (statement: String)
        ensures
            statement@ == Self::statement_select_all_spec() + " "@ + selection.sql(),
    {
        let mut out: Vec<char> = Vec::new();
        push_str(&mut out, Self::statement_select_all().as_str());
        push_str(&mut out, " ");
        push_str(&mut out, selection.display_sql().as_str());
        from_chars(&out)
    }

    /// Select one page of the rows of the table, sorted as the page says. A
    /// row that cannot be decoded is left out.
    fn select_all_sorted(database: &Database, selection: Pagination<Self>) -> (outputs: Result<
        Vec<Self::Output>,
        DatabaseError,
    >)
        ensures
            exists|found: Result<Vec<Option<Vec<SqlValue>>>, DatabaseError>|
                {
                    &&& #[trigger] queried(
                        database,
                        Self::statement_select_all_spec() + " "@ + selection.sql(),
                        Seq::<SqlValueView>::empty(),
                        found,
                    )
                    &&& found is Ok ==> outputs is Ok && selected::<Self>(
                        found->Ok_0@,
                        outputs->Ok_0@,
                    )
                    &&& found is Err ==> outputs == Err::<Vec<Self::Output>, DatabaseError>(
                        found->Err_0,
                    )
                },
            outputs is Ok ==> exists|rows: Seq<Option<Vec<SqlValue>>>| #[trigger]
                selected::<Self>(rows, outputs->Ok_0@),
            outputs is Err ==> outputs->Err_0.kind == ErrorKind::Store,
    {
        let statement = Self::statement_select_sorted(selection);
        let text = statement.as_str();
        let params: Vec<SqlValue> = Vec::new();
        let found = database.query(text, &params);
        let ghost given = found;
        proof {
            assert(row_view(params@) =~= Seq::<SqlValueView>::empty());
            assert(call_ensures(Database::query, (database, text, &params), given));
            assert(queried(
                database,
                Self::statement_select_all_spec() + " "@ + selection.sql(),
                Seq::<SqlValueView>::empty(),
                given,
            ));
        }
        match found {
            Ok(rows) => {
                let decoded = deserialize_all::<Self>(&rows);
                assert(selected::<Self>(rows@, decoded@));
                let outputs = Ok(decoded);
                assert(outputs->Ok_0@ == decoded@);
                outputs
            },
            Err(error) => Err(error),
        }
    }
}

/// A stored type whose rows can be selected by their key.
pub trait SelectableByPrimaryKey: Selectable + Indexable {
    /// The statement that selects the row of one key.
    spec fn statement_select_spec() -> Seq<char>;

    /// The statement that selects the row of one key.
    fn statement_select() -> (statement: String)
        ensures
            statement@ == Self::statement_select_spec(),
    ;

    /// Select the row of a key that may or may not exist: the statement
    /// that selects the row of one key is run with the key bound, and the
    /// first row gives the outcome: nothing where there is no row, and a
    /// conversion error where the row cannot be decoded. A failure of the
    /// store is the failure of the selection.
    fn try_select(database: &Database, index: i64) -> (output: Result<
        Option<Self::Output>,
        DatabaseError,
    >)
        ensures
            exists|found: Result<Vec<Option<Vec<SqlValue>>>, DatabaseError>|
                {
                    &&& #[trigger] queried(
                        database,
                        Self::statement_select_spec(),
                        seq![SqlValueView::Integer(index)],
                        found,
                    )
                    &&& found is Ok ==> selected_first::<Self>(found->Ok_0@, output)
                    &&& found is Err ==> output == Err::<Option<Self::Output>, DatabaseError>(
                        found->Err_0,
                    )
                },
            (output is Err && output->Err_0.kind == ErrorKind::Store) || exists|
                rows: Seq<Option<Vec<SqlValue>>>,
            | #[trigger] selected_first::<Self>(rows, output),
    {
        let statement = Self::statement_select();
        let mut params: Vec<SqlValue> = Vec::new();
        params.push(SqlValue::Integer(index));
        let text = statement.as_str();
        let found = database.query(text, &params);
        let ghost given = found;
        proof {
            assert(row_view(params@) =~= seq![SqlValueView::Integer(index)]);
            assert(call_ensures(Database::query, (database, text, &params), given));
            assert(queried(
                database,
                Self::statement_select_spec(),
                seq![SqlValueView::Integer(index)],
                given,
            ));
        }
        match found {
            Ok(rows) => {
                let output = deserialize_first::<Self>(&rows);
                assert(selected_first::<Self>(rows@, output));
                output
            },
            Err(error) => Err(error),
        }
    }

    /// Select the row of a key: what [`SelectableByPrimaryKey::try_select`]
    /// gives for the integer of the key, but that no row has the key is an
    /// error of its own kind.
    fn select(database: &Database, index: PrimaryKey<Self>) -> (output: Result<
        Self::Output,
        DatabaseError,
    >)
        ensures
            exists|first: Result<Option<Self::Output>, DatabaseError>|
                {
                    &&& #[trigger] call_ensures(Self::try_select, (database, index.0), first)
                    &&& match first {
                        Ok(Some(found)) => output == Ok::<Self::Output, DatabaseError>(found),
                        Ok(None) => output is Err && output->Err_0.kind == ErrorKind::NotFound
                            && output->Err_0.code is None,
                        Err(error) => output == Err::<Self::Output, DatabaseError>(error),
                    }
                },
            (output is Err && output->Err_0.kind == ErrorKind::Store) || exists|
                rows: Seq<Option<Vec<SqlValue>>>,
            | #[trigger] selected_one::<Self>(rows, output),
    {
        let first = Self::try_select(database, index.0);
        let ghost found = first;
        assert(call_ensures(Self::try_select, (database, index.0), found));
        let output = match first {
            Ok(Some(output)) => Ok(output),
            Ok(None) => Err(DatabaseError::internal(ErrorKind::NotFound, "no row has the key")),
            Err(error) => Err(error),
        };
        proof {
            if !(found is Err && found->Err_0.kind == ErrorKind::Store) {
                let rows = choose|rows: Seq<Option<Vec<SqlValue>>>|
                    selected_first::<Self>(rows, found);
                assert(selected_one::<Self>(rows, output));
            }
        }
        output
    }
}

/// A stored type whose values are read back from the store as they were
/// written.
pub trait ReadBack: Insertable + SelectableByPrimaryKey {
    /// The row that the selection by the key gives for a value that is
    /// stored under the key `id`.
    spec fn selected_row(id: i64, value: Self) -> Seq<SqlValueView>;

    /// What a value that is stored under the key `id` is handed out as.
    spec fn handed_out(id: i64, value: Self) -> Self::Output;

    /// The row of a value that was stored under a key is accepted, and it
    /// is read as the value under that key.
    proof fn lemma_read_back(id: i64, value: Self)
        requires
            value.fields() is Some,
        ensures
            Self::accepts(Self::selected_row(id, value)),
            Self::decodes(Self::selected_row(id, value), Self::handed_out(id, value)),
    ;
}

/// Whatever the stored type: where the first row that the selection by a
/// key finds is the row of a value that was inserted under the key, the
/// selection finds something, which is read from that row, as the value
/// under its key is.
pub proof fn lemma_insert_then_select<T: ReadBack>(
    id: i64,
    value: T,
    rows: Seq<Option<Vec<SqlValue>>>,
    outcome: Result<Option<T::Output>, DatabaseError>,
)
    requires
        value.fields() is Some,
        rows.len() > 0,
        rows[0] is Some,
        row_view(rows[0]->0@) == T::selected_row(id, value),
        selected_first::<T>(rows, outcome),
    ensures
        outcome is Ok,
        outcome->Ok_0 is Some,
        T::decodes(T::selected_row(id, value), outcome->Ok_0->0),
        T::decodes(T::selected_row(id, value), T::handed_out(id, value)),
{
    T::lemma_read_back(id, value);
}

/// How the rows of a name query relate to the labels read from them: every
/// row that was read and holds an integer and a text gives one label, in
/// the order of the rows.
pub open spec fn described<T: Indexable>(
    rows: Seq<Option<Vec<SqlValue>>>,
    labels: Seq<(PrimaryKey<T>, String)>,
) -> bool
    decreases rows.len(),
{
    if rows.len() == 0 {
        labels.len() == 0
    } else {
        match rows.last() {
            Some(row) => if is_label_row(row_view(row@)) {
                labels.len() > 0 && labels.last().0.0 == row@[0]@->Integer_0 && labels.last().1@
                    == row@[1]@->Text_0 && described::<T>(rows.drop_last(), labels.drop_last())
            } else {
                described::<T>(rows.drop_last(), labels)
            },
            None => described::<T>(rows.drop_last(), labels),
        }
    }
}

/// Whether a row holds a key and a label.
pub open spec fn is_label_row(row: Seq<SqlValueView>) -> bool {
    row.len() == 2 && row[0] is Integer && row[1] is Text
}

/// Read the labels from the rows of a name query.
pub fn read_descriptions<T: Indexable>(rows: &Vec<Option<Vec<SqlValue>>>) -> (labels: Vec<
    (PrimaryKey<T>, String),
>)
    ensures
        described::<T>(rows@, labels@),
{
    let mut labels: Vec<(PrimaryKey<T>, String)> = Vec::new();
    let mut i: usize = 0;
    assert(rows@.subrange(0, 0).len() == 0);
    while i < rows.len()
        invariant
            i <= rows.len(),
            described::<T>(rows@.subrange(0, i as int), labels@),
        decreases rows.len() - i,
    {
        let ghost before = labels@;
        let ghost next = rows@.subrange(0, i + 1);
        assert(next.drop_last() == rows@.subrange(0, i as int));
        assert(next.last() == rows@[i as int]);
        if let Some(row) = &rows[i] {
            if row.len() == 2 {
                if let (SqlValue::Integer(id), SqlValue::Text(label)) = (&row[0], &row[1]) {
                    labels.push((PrimaryKey(*id, core::marker::PhantomData), label.clone()));
                    assert(labels@.drop_last() == before);
                }
            }
        }
        i += 1;
    }
    assert(rows@.subrange(0, i as int) == rows@);
    labels
}

/// Run a name query and read the labels from its rows.
pub fn select_descriptions<T: Indexable>(database: &Database, statement: &str) -> (labels: Result<
    Vec<(PrimaryKey<T>, String)>,
    DatabaseError,
>)
    ensures
        exists|found: Result<Vec<Option<Vec<SqlValue>>>, DatabaseError>|
            {
                &&& #[trigger] queried(
                    database,
                    statement@,
                    Seq::<SqlValueView>::empty(),
                    found,
                )
                &&& found is Ok ==> labels is Ok && described::<T>(found->Ok_0@, labels->Ok_0@)
                &&& found is Err ==> labels == Err::<Vec<(PrimaryKey<T>, String)>, DatabaseError>(
                    found->Err_0,
                )
            },
        labels is Ok ==> exists|rows: Seq<Option<Vec<SqlValue>>>| #[trigger]
            described::<T>(rows, labels->Ok_0@),
        labels is Err ==> labels->Err_0.kind == ErrorKind::Store,
{
    let params: Vec<SqlValue> = Vec::new();
    let found = database.query(statement, &params);
    let ghost given = found;
    proof {
        assert(row_view(params@) =~= Seq::<SqlValueView>::empty());
        assert(call_ensures(Database::query, (database, statement, &params), given));
        assert(queried(database, statement@, Seq::<SqlValueView>::empty(), given));
    }
    match found {
        Ok(rows) => {
            let read = read_descriptions::<T>(&rows);
            assert(described::<T>(rows@, read@));
            let labels = Ok(read);
            assert(labels->Ok_0@ == read@);
            labels
        },
        Err(error) => Err(error),
    }
}

/// A stored type whose rows other tables refer to, and which can say of
/// each row, in a few words, what it is.
pub trait Referenceable: DatabaseEntry + Indexable {
    /// The statement that selects the key and what the label is made from.
    spec fn statement_select_name_spec() -> Seq<char>;

    /// How the rows of the name query relate to the labels made from them.
    spec fn labelled(
        rows: Seq<Option<Vec<SqlValue>>>,
        labels: Seq<(PrimaryKey<Self>, String)>,
    ) -> bool;

    /// The statement that selects the key and what the label is made from.
    fn statement_select_name() -> (statement: String)
        ensures
            statement@ == Self::statement_select_name_spec(),
    ;

    /// The key and the label of every row of the table, read by one query.
    fn generate_descriptions(database: &Database) -> (labels: Result<
        Vec<(PrimaryKey<Self>, String)>,
        DatabaseError,
    >)
        ensures
            exists|found: Result<Vec<Option<Vec<SqlValue>>>, DatabaseError>|
                {
                    &&& #[trigger] queried(
                        database,
                        Self::statement_select_name_spec(),
                        Seq::<SqlValueView>::empty(),
                        found,
                    )
                    &&& found is Ok ==> labels is Ok && Self::labelled(
                        found->Ok_0@,
                        labels->Ok_0@,
                    )
                    &&& found is Err ==> labels == Err::<
                        Vec<(PrimaryKey<Self>, String)>,
                        DatabaseError,
                    >(found->Err_0)
                },
            labels is Ok ==> exists|rows: Seq<Option<Vec<SqlValue>>>| #[trigger]
                Self::labelled(rows, labels->Ok_0@),
            labels is Err ==> labels->Err_0.kind == ErrorKind::Store,
    ;
}

} // verus!
