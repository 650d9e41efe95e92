//! The cost centers that entries are booked on.
use vstd::prelude::*;

use crate::database::column_type::DatabaseType;
use crate::database::dependency::{Dependency, DependencyView};
use crate::database::error::DatabaseError;
use crate::database::primary_key::PrimaryKey;
use crate::database::record::Record;
use crate::database::schema::{
    column_of, columns_view, create_table_statement, create_table_text, insert_statement,
    insert_text, lemma_sortable_names, select_all_statement, select_all_text,
    select_name_statement, select_name_text, select_statement, select_text, sortable_columns,
    sortable_names, Column, ColumnView,
};
use crate::database::sqlite::Database;
use crate::database::traits::{
    described, select_descriptions, stored_row, DatabaseEntry, Decodable, DefaultGenerator,
    Indexable, Insertable, ReadBack, Referenceable, Selectable, SelectableByPrimaryKey, Sortable,
};
use crate::database::value::{row_view, SqlValue, SqlValueView};

verus! {

/// One row of the table `cost_centers`.
#[derive(Debug, Clone, PartialEq, Eq)]
pub struct CostCenter {
    pub description: String,
}

impl Default for CostCenter {
    /// The value with every text empty, every number zero and nothing
    /// optional given.
    fn default() -> (value: CostCenter)
        ensures
            value.description@ == Seq::<char>::empty(),
    {
        CostCenter { description: String::new() }
    }
}

impl CostCenter {
    /// The columns of the table behind its key.
    pub open spec fn columns_spec() -> Seq<ColumnView> {
        seq![
            column_of::<String>("description"@),
        ]
    }

    /// The columns of the table behind its key.
    pub fn columns() -> (columns: Vec<Column>)
        ensures
            columns_view(columns@) == Self::columns_spec(),
    {
        let mut columns: Vec<Column> = Vec::new();
        columns.push(Column::new::<String>("description"));
        assert(columns_view(columns@) =~= Self::columns_spec());
        columns
    }
}

impl DatabaseEntry for CostCenter {
    open spec fn table_name_spec() -> Seq<char> {
        "cost_centers"@
    }

    open spec fn statement_create_table_spec() -> Seq<char> {
        create_table_text("cost_centers"@, Self::columns_spec(), None)
    }

    open spec fn depends_on_spec() -> DependencyView {
        DependencyView::Unit
    }

    fn table_name() -> (name: &'static str) {
        "cost_centers"
    }

    fn statement_create_table() -> (statement: String) {
        create_table_statement("cost_centers", &Self::columns(), None)
    }

    fn depends_on() -> (dependencies: Dependency) {
        Dependency::Unit
    }

    proof fn lemma_table_name() {
        reveal_strlit("cost_centers");
    }
}

impl Indexable for CostCenter {

}

impl Insertable for CostCenter {
    open spec fn statement_insert_spec() -> Seq<char> {
        insert_text("cost_centers"@, Self::columns_spec())
    }

    open spec fn fields(&self) -> Option<Seq<SqlValueView>> {
        if self.description.encode() is Some {
            Some(seq![self.description.encode()->0])
        } else {
            None
        }
    }

    fn statement_insert() -> (statement: String) {
        let statement = insert_statement("cost_centers", &Self::columns());
        assert(statement@ == Self::statement_insert_spec());
        statement
    }

    fn serialize_sql(&self) -> (params: Option<Vec<SqlValue>>) {
        let mut params: Vec<SqlValue> = Vec::new();
        match self.description.to_sql() {
            Some(value) => params.push(value),
            None => {
                return None;
            },
        }
        assert(row_view(params@) =~= self.fields()->0);
        Some(params)
    }
}

impl Sortable for CostCenter {
    open spec fn sortable_columns_spec() -> Seq<Seq<char>> {
        sortable_names(Self::columns_spec())
    }

    fn sortable_columns() -> (names: Vec<&'static str>) {
        sortable_columns(&Self::columns())
    }

    proof fn lemma_sortable_columns() {
        lemma_sortable_names(Self::columns_spec());
    }
}

impl Decodable for CostCenter {
    type Output = Record<CostCenter>;

    open spec fn accepts(row: Seq<SqlValueView>) -> bool {
        &&& row.len() == 2
        &&& row[0] is Integer
        &&& <String as DatabaseType>::accepts(row[1])
    }

    open spec fn decodes(row: Seq<SqlValueView>, output: Record<CostCenter>) -> bool {
        &&& row.len() == 2
        &&& row[0] is Integer
        &&& output.identifier.0 == row[0]->Integer_0
        &&& <String as DatabaseType>::decodes(row[1], output.value.description)
    }

    fn deserialize_sql(row: &Vec<SqlValue>) -> (output: Option<Record<CostCenter>>) {
        if row.len() != 2 {
            return None;
        }
        let identifier = match &row[0] {
            SqlValue::Integer(id) => PrimaryKey(*id, core::marker::PhantomData),
            _ => {
                return None;
            },
        };
        let description = match <String as DatabaseType>::from_sql(&row[1]) {
            Some(value) => value,
            None => {
                return None;
            },
        };
        Some(Record { identifier, value: CostCenter { description } })
    }
}

impl Selectable for CostCenter {
    open spec fn statement_select_all_spec() -> Seq<char> {
        select_all_text("cost_centers"@, Self::columns_spec())
    }

    fn statement_select_all() -> (statement: String) {
        let statement = select_all_statement("cost_centers", &Self::columns());
        assert(statement@ == Self::statement_select_all_spec());
        statement
    }
}

impl SelectableByPrimaryKey for CostCenter {
    open spec fn statement_select_spec() -> Seq<char> {
        select_text(select_all_text("cost_centers"@, Self::columns_spec()))
    }

    fn statement_select() -> (statement: String) {
        let statement = select_statement(Self::statement_select_all().as_str());
        assert(statement@ == Self::statement_select_spec());
        statement
    }
}

/// A value of `CostCenter` that was stored under a key is read back from its row
/// with that key and with every field as it was.
impl ReadBack for CostCenter {
    open spec fn selected_row(id: i64, value: CostCenter) -> Seq<SqlValueView> {
        stored_row(id, value.fields()->0)
    }

    open spec fn handed_out(id: i64, value: CostCenter) -> <CostCenter as Decodable>::Output {
        Record { identifier: PrimaryKey(id, core::marker::PhantomData), value }
    }

    proof fn lemma_read_back(id: i64, value: CostCenter) {
        value.description.lemma_stored();
    }
}

impl Referenceable for CostCenter {
    open spec fn statement_select_name_spec() -> Seq<char> {
        select_name_text("cost_centers"@, "description"@)
    }

    open spec fn labelled(
        rows: Seq<Option<Vec<SqlValue>>>,
        labels: Seq<(PrimaryKey<Self>, String)>,
    ) -> bool {
        described::<Self>(rows, labels)
    }

    fn statement_select_name() -> (statement: String) {
        let statement = select_name_statement("cost_centers", "description");
        assert(statement@ == Self::statement_select_name_spec());
        statement
    }

    fn generate_descriptions(database: &Database) -> (labels: Result<
        Vec<(PrimaryKey<Self>, String)>,
        DatabaseError,
    >) {
        let labels = select_descriptions::<Self>(database, Self::statement_select_name().as_str());
        assert(labels is Ok ==> Self::labelled(
            choose|rows: Seq<Option<Vec<SqlValue>>>| described::<Self>(rows, labels->Ok_0@),
            labels->Ok_0@,
        ));
        labels
    }
}

} // verus!
