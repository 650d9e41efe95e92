//! A small table for trying out the storage layer.
use vstd::prelude::*;

use crate::database::column_type::DatabaseType;
use crate::database::dependency::{Dependency, DependencyView};
use crate::database::error::DatabaseError;
use crate::database::primary_key::PrimaryKey;
use crate::database::record::Record;
use crate::database::schema::{
    column_of, columns_view, create_table_statement, create_table_text, insert_statement,
    insert_text, lemma_sortable_names, select_all_statement, select_all_text,
    select_name_statement, select_name_text, select_statement, select_text, sortable_columns,
    sortable_names, Column, ColumnView,
};
use crate::database::sqlite::Database;
use crate::database::traits::{
    described, select_descriptions, stored_row, DatabaseEntry, Decodable, DefaultGenerator,
    Indexable, Insertable, ReadBack, Referenceable, Selectable, SelectableByPrimaryKey, Sortable,
};
use crate::database::value::{row_view, SqlValue, SqlValueView};

verus! {

/// One row of the table `tests`, which has a column of each simple kind.
#[derive(Debug, Clone, PartialEq, Eq)]
pub struct Test {
    pub bool_value: bool,
    pub string_value: String,
    pub integer_value: u32,
}

impl Default for Test {
    /// The value with every text empty, every number zero and nothing
    /// optional given.
    fn default() -> (value: Test)
        ensures
            !value.bool_value,
            value.string_value@ == Seq::<char>::empty(),
            value.integer_value == 0,
    {
        Test { bool_value: false, string_value: String::new(), integer_value: 0 }
    }
}

impl Test {
    /// The columns of the table behind its key.
    pub open spec fn columns_spec() -> Seq<ColumnView> {
        seq![
            column_of::<bool>("bool_value"@),
            column_of::<String>("string_value"@),
            column_of::<u32>("integer_value"@),
        ]
    }

    /// The columns of the table behind its key.
    pub fn columns() -> (columns: Vec<Column>)
        ensures
            columns_view(columns@) == Self::columns_spec(),
    {
        let mut columns: Vec<Column> = Vec::new();
        columns.push(Column::new::<bool>("bool_value"));
        columns.push(Column::new::<String>("string_value"));
        columns.push(Column::new::<u32>("integer_value"));
        assert(columns_view(columns@) =~= Self::columns_spec());
        columns
    }
}

impl DatabaseEntry for Test {
    open spec fn table_name_spec() -> Seq<char> {
        "tests"@
    }

    open spec fn statement_create_table_spec() -> Seq<char> {
        create_table_text("tests"@, Self::columns_spec(), None)
    }

    open spec fn depends_on_spec() -> DependencyView {
        DependencyView::Unit
    }

    fn table_name() -> (name: &'static str) {
        "tests"
    }

    fn statement_create_table() -> (statement: String) {
        create_table_statement("tests", &Self::columns(), None)
    }

    fn depends_on() -> (dependencies: Dependency) {
        Dependency::Unit
    }

    proof fn lemma_table_name() {
        reveal_strlit("tests");
    }
}

impl Indexable for Test {

}

impl Insertable for Test {
    open spec fn statement_insert_spec() -> Seq<char> {
        insert_text("tests"@, Self::columns_spec())
    }

    open spec fn fields(&self) -> Option<Seq<SqlValueView>> {
        if self.bool_value.encode() is Some
            && self.string_value.encode() is Some
            && self.integer_value.encode() is Some {
            Some(
                seq![
                    self.bool_value.encode()->0,
                    self.string_value.encode()->0,
                    self.integer_value.encode()->0,
                ],
            )
        } else {
            None
        }
    }

    fn statement_insert() -> (statement: String) {
        let statement = insert_statement("tests", &Self::columns());
        assert(statement@ == Self::statement_insert_spec());
        statement
    }

    fn serialize_sql(&self) -> (params: Option<Vec<SqlValue>>) {
        let mut params: Vec<SqlValue> = Vec::new();
        match self.bool_value.to_sql() {
            Some(value) => params.push(value),
            None => {
                return None;
            },
        }
        match self.string_value.to_sql() {
            Some(value) => params.push(value),
            None => {
                return None;
            },
        }
        match self.integer_value.to_sql() {
            Some(value) => params.push(value),
            None => {
                return None;
            },
        }
        assert(row_view(params@) =~= self.fields()->0);
        Some(params)
    }
}

impl Sortable for Test {
    open spec fn sortable_columns_spec() -> Seq<Seq<char>> {
        sortable_names(Self::columns_spec())
    }

    fn sortable_columns() -> (names: Vec<&'static str>) {
        sortable_columns(&Self::columns())
    }

    proof fn lemma_sortable_columns() {
        lemma_sortable_names(Self::columns_spec());
    }
}

impl Decodable for Test {
    type Output = Record<Test>;

    open spec fn accepts(row: Seq<SqlValueView>) -> bool {
        &&& row.len() == 4
        &&& row[0] is Integer
        &&& <bool as DatabaseType>::accepts(row[1])
        &&& <String as DatabaseType>::accepts(row[2])
        &&& <u32 as DatabaseType>::accepts(row[3])
    }

    open spec fn decodes(row: Seq<SqlValueView>, output: Record<Test>) -> bool {
        &&& row.len() == 4
        &&& row[0] is Integer
        &&& output.identifier.0 == row[0]->Integer_0
        &&& <bool as DatabaseType>::decodes(row[1], output.value.bool_value)
        &&& <String as DatabaseType>::decodes(row[2], output.value.string_value)
        &&& <u32 as DatabaseType>::decodes(row[3], output.value.integer_value)
    }

    fn deserialize_sql(row: &Vec<SqlValue>) -> (output: Option<Record<Test>>) {
        if row.len() != 4 {
            return None;
        }
        let identifier = match &row[0] {
            SqlValue::Integer(id) => PrimaryKey(*id, core::marker::PhantomData),
            _ => {
                return None;
            },
        };
        let bool_value = match <bool as DatabaseType>::from_sql(&row[1]) {
            Some(value) => value,
            None => {
                return None;
            },
        };
        let string_value = match <String as DatabaseType>::from_sql(&row[2]) {
            Some(value) => value,
            None => {
                return None;
            },
        };
        let integer_value = match <u32 as DatabaseType>::from_sql(&row[3]) {
            Some(value) => value,
            None => {
                return None;
            },
        };
        Some(Record { identifier, value: Test { bool_value, string_value, integer_value } })
    }
}

impl Selectable for Test {
    open spec fn statement_select_all_spec() -> Seq<char> {
        select_all_text("tests"@, Self::columns_spec())
    }

    fn statement_select_all() -> (statement: String) {
        let statement = select_all_statement("tests", &Self::columns());
        assert(statement@ == Self::statement_select_all_spec());
        statement
    }
}

impl SelectableByPrimaryKey for Test {
    open spec fn statement_select_spec() -> Seq<char> {
        select_text(select_all_text("tests"@, Self::columns_spec()))
    }

    fn statement_select() -> (statement: String) {
        let statement = select_statement(Self::statement_select_all().as_str());
        assert(statement@ == Self::statement_select_spec());
        statement
    }
}

/// A value of `Test` that was stored under a key is read back from its row
/// with that key and with every field as it was.
impl ReadBack for Test {
    open spec fn selected_row(id: i64, value: Test) -> Seq<SqlValueView> {
        stored_row(id, value.fields()->0)
    }

    open spec fn handed_out(id: i64, value: Test) -> <Test as Decodable>::Output {
        Record { identifier: PrimaryKey(id, core::marker::PhantomData), value }
    }

    proof fn lemma_read_back(id: i64, value: Test) {
        value.bool_value.lemma_stored();
        value.string_value.lemma_stored();
        value.integer_value.lemma_stored();
    }
}

impl Referenceable for Test {
    open spec fn statement_select_name_spec() -> Seq<char> {
        select_name_text("tests"@, "string_value"@)
    }

    open spec fn labelled(
        rows: Seq<Option<Vec<SqlValue>>>,
        labels: Seq<(PrimaryKey<Self>, String)>,
    ) -> bool {
        described::<Self>(rows, labels)
    }

    fn statement_select_name() -> (statement: String) {
        let statement = select_name_statement("tests", "string_value");
        assert(statement@ == Self::statement_select_name_spec());
        statement
    }

    fn generate_descriptions(database: &Database) -> (labels: Result<
        Vec<(PrimaryKey<Self>, String)>,
        DatabaseError,
    >) {
        let labels = select_descriptions::<Self>(database, Self::statement_select_name().as_str());
        assert(labels is Ok ==> Self::labelled(
            choose|rows: Seq<Option<Vec<SqlValue>>>| described::<Self>(rows, labels->Ok_0@),
            labels->Ok_0@,
        ));
        labels
    }
}

} // verus!
