//! The accounts of the bookkeeping.
use vstd::prelude::*;

use crate::database::column_type::DatabaseType;
use crate::database::dependency::{Dependency, DependencyView};
use crate::database::error::{DatabaseError, ErrorKind};
use crate::database::primary_key::PrimaryKey;
use crate::database::record::Record;
use crate::database::schema::{
    column_of, columns_view, create_table_statement, create_table_text, insert_statement,
    insert_text, lemma_sortable_names, select_all_statement, select_all_text,
    select_name_statement, select_name_text, select_statement, select_text, sortable_columns,
    sortable_names, Column, ColumnView,
};
use crate::database::sqlite::Database;
use crate::database::traits::{
    dependency_of, described, select_descriptions, stored_row, DatabaseEntry, Decodable,
    DefaultGenerator, Indexable, Insertable, ReadBack, Referenceable, Selectable,
    SelectableByPrimaryKey, Sortable,
};
use crate::database::value::{row_view, SqlValue, SqlValueView};
use super::category::Category;

verus! {

/// One row of the table `accounts`.
#[derive(Debug, Clone, PartialEq, Eq)]
pub struct Account {
    pub code: u32,
    pub category: PrimaryKey<Category>,
    pub description: String,
}

impl Account {
    /// The columns of the table behind its key.
    pub open spec fn columns_spec() -> Seq<ColumnView> {
        seq![
            column_of::<u32>("code"@),
            column_of::<PrimaryKey<Category>>("category"@),
            column_of::<String>("description"@),
        ]
    }

    /// The columns of the table behind its key.
    pub fn columns() -> (columns: Vec<Column>)
        ensures
            columns_view(columns@) == Self::columns_spec(),
    {
        let mut columns: Vec<Column> = Vec::new();
        columns.push(Column::new::<u32>("code"));
        columns.push(Column::new::<PrimaryKey<Category>>("category"));
        columns.push(Column::new::<String>("description"));
        assert(columns_view(columns@) =~= Self::columns_spec());
        columns
    }
}

impl DatabaseEntry for Account {
    open spec fn table_name_spec() -> Seq<char> {
        "accounts"@
    }

    open spec fn statement_create_table_spec() -> Seq<char> {
        create_table_text("accounts"@, Self::columns_spec(), None)
    }

    open spec fn depends_on_spec() -> DependencyView {
        dependency_of::<Category>()
    }

    fn table_name() -> (name: &'static str) {
        "accounts"
    }

    fn statement_create_table() -> (statement: String) {
        create_table_statement("accounts", &Self::columns(), None)
    }

    fn depends_on() -> (dependencies: Dependency) {
        Category::dependency()
    }

    proof fn lemma_table_name() {
        reveal_strlit("accounts");
    }
}

impl Indexable for Account {

}

impl Insertable for Account {
    open spec fn statement_insert_spec() -> Seq<char> {
        insert_text("accounts"@, Self::columns_spec())
    }

    open spec fn fields(&self) -> Option<Seq<SqlValueView>> {
        if self.code.encode() is Some
            && self.category.encode() is Some
            && self.description.encode() is Some {
            Some(
                seq![
                    self.code.encode()->0,
                    self.category.encode()->0,
                    self.description.encode()->0,
                ],
            )
        } else {
            None
        }
    }

    fn statement_insert() -> (statement: String) {
        let statement = insert_statement("accounts", &Self::columns());
        assert(statement@ == Self::statement_insert_spec());
        statement
    }

    fn serialize_sql(&self) -> (params: Option<Vec<SqlValue>>) {
        let mut params: Vec<SqlValue> = Vec::new();
        match self.code.to_sql() {
            Some(value) => params.push(value),
            None => {
                return None;
            },
        }
        match self.category.to_sql() {
            Some(value) => params.push(value),
            None => {
                return None;
            },
        }
        match self.description.to_sql() {
            Some(value) => params.push(value),
            None => {
                return None;
            },
        }
        assert(row_view(params@) =~= self.fields()->0);
        Some(params)
    }
}

impl Sortable for Account {
    open spec fn sortable_columns_spec() -> Seq<Seq<char>> {
        sortable_names(Self::columns_spec())
    }

    fn sortable_columns() -> (names: Vec<&'static str>) {
        sortable_columns(&Self::columns())
    }

    proof fn lemma_sortable_columns() {
        lemma_sortable_names(Self::columns_spec());
    }
}

impl Decodable for Account {
    type Output = Record<Account>;

    open spec fn accepts(row: Seq<SqlValueView>) -> bool {
        &&& row.len() == 4
        &&& row[0] is Integer
        &&& <u32 as DatabaseType>::accepts(row[1])
        &&& <PrimaryKey<Category> as DatabaseType>::accepts(row[2])
        &&& <String as DatabaseType>::accepts(row[3])
    }

    open spec fn decodes(row: Seq<SqlValueView>, output: Record<Account>) -> bool {
        &&& row.len() == 4
        &&& row[0] is Integer
        &&& output.identifier.0 == row[0]->Integer_0
        &&& <u32 as DatabaseType>::decodes(row[1], output.value.code)
        &&& <PrimaryKey<Category> as DatabaseType>::decodes(row[2], output.value.category)
        &&& <String as DatabaseType>::decodes(row[3], output.value.description)
    }

    fn deserialize_sql(row: &Vec<SqlValue>) -> (output: Option<Record<Account>>) {
        if row.len() != 4 {
            return None;
        }
        let identifier = match &row[0] {
            SqlValue::Integer(id) => PrimaryKey(*id, core::marker::PhantomData),
            _ => {
                return None;
            },
        };
        let code = match <u32 as DatabaseType>::from_sql(&row[1]) {
            Some(value) => value,
            None => {
                return None;
            },
        };
        let category = match <PrimaryKey<Category> as DatabaseType>::from_sql(&row[2]) {
            Some(value) => value,
            None => {
                return None;
            },
        };
        let description = match <String as DatabaseType>::from_sql(&row[3]) {
            Some(value) => value,
            None => {
                return None;
            },
        };
        Some(Record { identifier, value: Account { code, category, description } })
    }
}

impl Selectable for Account {
    open spec fn statement_select_all_spec() -> Seq<char> {
        select_all_text("accounts"@, Self::columns_spec())
    }

    fn statement_select_all() -> (statement: String) {
        let statement = select_all_statement("accounts", &Self::columns());
        assert(statement@ == Self::statement_select_all_spec());
        statement
    }
}

impl SelectableByPrimaryKey for Account {
    open spec fn statement_select_spec() -> Seq<char> {
        select_text(select_all_text("accounts"@, Self::columns_spec()))
    }

    fn statement_select() -> (statement: String) {
        let statement = select_statement(Self::statement_select_all().as_str());
        assert(statement@ == Self::statement_select_spec());
        statement
    }
}

/// A value of `Account` that was stored under a key is read back from its row
/// with that key and with every field as it was.
impl ReadBack for Account {
    open spec fn selected_row(id: i64, value: Account) -> Seq<SqlValueView> {
        stored_row(id, value.fields()->0)
    }

    open spec fn handed_out(id: i64, value: Account) -> <Account as Decodable>::Output {
        Record { identifier: PrimaryKey(id, core::marker::PhantomData), value }
    }

    proof fn lemma_read_back(id: i64, value: Account) {
        value.code.lemma_stored();
        value.category.lemma_stored();
        value.description.lemma_stored();
    }
}

impl Referenceable for Account {
    open spec fn statement_select_name_spec() -> Seq<char> {
        select_name_text("accounts"@, "description"@)
    }

    open spec fn labelled(
        rows: Seq<Option<Vec<SqlValue>>>,
        labels: Seq<(PrimaryKey<Self>, String)>,
    ) -> bool {
        described::<Self>(rows, labels)
    }

    fn statement_select_name() -> (statement: String) {
        let statement = select_name_statement("accounts", "description");
        assert(statement@ == Self::statement_select_name_spec());
        statement
    }

    fn generate_descriptions(database: &Database) -> (labels: Result<
        Vec<(PrimaryKey<Self>, String)>,
        DatabaseError,
    >) {
        let labels = select_descriptions::<Self>(database, Self::statement_select_name().as_str());
        assert(labels is Ok ==> Self::labelled(
            choose|rows: Seq<Option<Vec<SqlValue>>>| described::<Self>(rows, labels->Ok_0@),
            labels->Ok_0@,
        ));
        labels
    }
}

/// Whether `example` is the example account for the outcome of inserting
/// a category: the account with the code 1800 in the category of the key,
/// or the failure of the insertion.
pub open spec fn example_account(
    inserted: Result<PrimaryKey<Category>, DatabaseError>,
    example: Result<Account, DatabaseError>,
) -> bool {
    match inserted {
        Ok(category) => {
            &&& example is Ok
            &&& example->Ok_0.code == 1800
            &&& example->Ok_0.category == category
            &&& example->Ok_0.description@ == "Exampke account"@
        },
        Err(error) => example == Err::<Account, DatabaseError>(error),
    }
}

impl DefaultGenerator for Account {
    /// An example account in a new default category, which is inserted
    /// first. The example can be stored. Only the store can fail.
    fn create_default(database: &Database) -> (example: Result<Self, DatabaseError>)
        ensures
            exists|category: Category, inserted: Result<PrimaryKey<Category>, DatabaseError>|
                {
                    &&& call_ensures(Category::default, (), category)
                    &&& #[trigger] call_ensures(Category::insert, (&category, database), inserted)
                    &&& example_account(inserted, example)
                },
            example is Ok ==> example->Ok_0.fields() is Some,
            example is Err ==> example->Err_0.kind == ErrorKind::Store,
    {
        let category = Category::default();
        let inserted = category.insert(database);
        let ghost given = inserted;
        assert(call_ensures(Category::insert, (&category, database), given));
        let example = match inserted {
            Ok(category) => Ok(
                Account { code: 1800, category, description: "Exampke account".to_owned() },
            ),
            Err(error) => Err(error),
        };
        assert(example_account(given, example));
        example
    }
}

} // verus!
