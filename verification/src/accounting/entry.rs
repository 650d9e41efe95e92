//! The entries of the bookkeeping.
use vstd::prelude::*;

use crate::database::column_type::DatabaseType;
use crate::database::dependency::{Dependency, DependencyView};
use crate::database::error::{DatabaseError, ErrorKind};
use crate::database::primary_key::PrimaryKey;
use crate::database::record::Record;
use crate::database::schema::{
    column_of, columns_view, create_table_statement, create_table_text, insert_statement,
    insert_text, lemma_sortable_names, select_all_statement, select_all_text, select_statement,
    select_text, sortable_columns, sortable_names, Column, ColumnView,
};
use crate::database::sqlite::Database;
use crate::database::traits::{
    dependency_of, insert_made, made_and_inserted, stored_row, DatabaseEntry, Decodable,
    DefaultGenerator, Indexable, Insertable, ReadBack, Referenceable, Selectable,
    SelectableByPrimaryKey, Sortable,
};
use crate::database::value::{row_view, SqlValue, SqlValueView};
use super::accounts::Account;
use super::amount::Amount;
use super::cost_center::CostCenter;
use crate::document::Document;

verus! {

/// One row of the table `entries`.
#[derive(Debug, Clone, PartialEq, Eq)]
pub struct Entry {
    pub evidence: PrimaryKey<Document>,
    pub account: PrimaryKey<Account>,
    pub cost_center: PrimaryKey<CostCenter>,
    pub amount: Amount,
    pub description: String,
}

impl Entry {
    /// The columns of the table behind its key.
    pub open spec fn columns_spec() -> Seq<ColumnView> {
        seq![
            column_of::<PrimaryKey<Document>>("evidence"@),
            column_of::<PrimaryKey<Account>>("account"@),
            column_of::<PrimaryKey<CostCenter>>("cost_center"@),
            column_of::<Amount>("amount"@),
            column_of::<String>("description"@),
        ]
    }

    /// The columns of the table behind its key.
    pub fn columns() -> (columns: Vec<Column>)
        ensures
            columns_view(columns@) == Self::columns_spec(),
    {
        let mut columns: Vec<Column> = Vec::new();
        columns.push(Column::new::<PrimaryKey<Document>>("evidence"));
        columns.push(Column::new::<PrimaryKey<Account>>("account"));
        columns.push(Column::new::<PrimaryKey<CostCenter>>("cost_center"));
        columns.push(Column::new::<Amount>("amount"));
        columns.push(Column::new::<String>("description"));
        assert(columns_view(columns@) =~= Self::columns_spec());
        columns
    }
}

impl DatabaseEntry for Entry {
    open spec fn table_name_spec() -> Seq<char> {
        "entries"@
    }

    open spec fn statement_create_table_spec() -> Seq<char> {
        create_table_text("entries"@, Self::columns_spec(), None)
    }

    open spec fn depends_on_spec() -> DependencyView {
        DependencyView::Pair(
            Box::new(dependency_of::<Document>()),
            Box::new(
                DependencyView::Pair(
                    Box::new(dependency_of::<Account>()),
                    Box::new(dependency_of::<CostCenter>()),
                ),
            ),
        )
    }

    fn table_name() -> (name: &'static str) {
        "entries"
    }

    fn statement_create_table() -> (statement: String) {
        create_table_statement("entries", &Self::columns(), None)
    }

    fn depends_on() -> (dependencies: Dependency) {
        let accounting = Dependency::Pair(
            Box::new(Account::dependency()),
            Box::new(CostCenter::dependency()),
        );
        assert(accounting@ == DependencyView::Pair(
            Box::new(dependency_of::<Account>()),
            Box::new(dependency_of::<CostCenter>()),
        ));
        Dependency::Pair(Box::new(Document::dependency()), Box::new(accounting))
    }

    proof fn lemma_table_name() {
        reveal_strlit("entries");
    }
}

impl Indexable for Entry {

}

impl Insertable for Entry {
    open spec fn statement_insert_spec() -> Seq<char> {
        insert_text("entries"@, Self::columns_spec())
    }

    open spec fn fields(&self) -> Option<Seq<SqlValueView>> {
        if self.evidence.encode() is Some
            && self.account.encode() is Some
            && self.cost_center.encode() is Some
            && self.amount.encode() is Some
            && self.description.encode() is Some {
            Some(
                seq![
                    self.evidence.encode()->0,
                    self.account.encode()->0,
                    self.cost_center.encode()->0,
                    self.amount.encode()->0,
                    self.description.encode()->0,
                ],
            )
        } else {
            None
        }
    }

    fn statement_insert() -> (statement: String) {
        let statement = insert_statement("entries", &Self::columns());
        assert(statement@ == Self::statement_insert_spec());
        statement
    }

    fn serialize_sql(&self) -> (params: Option<Vec<SqlValue>>) {
        let mut params: Vec<SqlValue> = Vec::new();
        match self.evidence.to_sql() {
            Some(value) => params.push(value),
            None => {
                return None;
            },
        }
        match self.account.to_sql() {
            Some(value) => params.push(value),
            None => {
                return None;
            },
        }
        match self.cost_center.to_sql() {
            Some(value) => params.push(value),
            None => {
                return None;
            },
        }
        match self.amount.to_sql() {
            Some(value) => params.push(value),
            None => {
                return None;
            },
        }
        match self.description.to_sql() {
            Some(value) => params.push(value),
            None => {
                return None;
            },
        }
        assert(row_view(params@) =~= self.fields()->0);
        Some(params)
    }
}

impl Sortable for Entry {
    open spec fn sortable_columns_spec() -> Seq<Seq<char>> {
        sortable_names(Self::columns_spec())
    }

    fn sortable_columns() -> (names: Vec<&'static str>) {
        sortable_columns(&Self::columns())
    }

    proof fn lemma_sortable_columns() {
        lemma_sortable_names(Self::columns_spec());
    }
}

impl Decodable for Entry {
    type Output = Record<Entry>;

    open spec fn accepts(row: Seq<SqlValueView>) -> bool {
        &&& row.len() == 6
        &&& row[0] is Integer
        &&& <PrimaryKey<Document> as DatabaseType>::accepts(row[1])
        &&& <PrimaryKey<Account> as DatabaseType>::accepts(row[2])
        &&& <PrimaryKey<CostCenter> as DatabaseType>::accepts(row[3])
        &&& <Amount as DatabaseType>::accepts(row[4])
        &&& <String as DatabaseType>::accepts(row[5])
    }

    open spec fn decodes(row: Seq<SqlValueView>, output: Record<Entry>) -> bool {
        &&& row.len() == 6
        &&& row[0] is Integer
        &&& output.identifier.0 == row[0]->Integer_0
        &&& <PrimaryKey<Document> as DatabaseType>::decodes(row[1], output.value.evidence)
        &&& <PrimaryKey<Account> as DatabaseType>::decodes(row[2], output.value.account)
        &&& <PrimaryKey<CostCenter> as DatabaseType>::decodes(row[3], output.value.cost_center)
        &&& <Amount as DatabaseType>::decodes(row[4], output.value.amount)
        &&& <String as DatabaseType>::decodes(row[5], output.value.description)
    }

    fn deserialize_sql(row: &Vec<SqlValue>) -> (output: Option<Record<Entry>>) {
        if row.len() != 6 {
            return None;
        }
        let identifier = match &row[0] {
            SqlValue::Integer(id) => PrimaryKey(*id, core::marker::PhantomData),
            _ => {
                return None;
            },
        };
        let evidence = match <PrimaryKey<Document> as DatabaseType>::from_sql(&row[1]) {
            Some(value) => value,
            None => {
                return None;
            },
        };
        let account = match <PrimaryKey<Account> as DatabaseType>::from_sql(&row[2]) {
            Some(value) => value,
            None => {
                return None;
            },
        };
        let cost_center = match <PrimaryKey<CostCenter> as DatabaseType>::from_sql(&row[3]) {
            Some(value) => value,
            None => {
                return None;
            },
        };
        let amount = match <Amount as DatabaseType>::from_sql(&row[4]) {
            Some(value) => value,
            None => {
                return None;
            },
        };
        let description = match <String as DatabaseType>::from_sql(&row[5]) {
            Some(value) => value,
            None => {
                return None;
            },
        };
        Some(
            Record {
                identifier,
                value: Entry { evidence, account, cost_center, amount, description },
            },
        )
    }
}

impl Selectable for Entry {
    open spec fn statement_select_all_spec() -> Seq<char> {
        select_all_text("entries"@, Self::columns_spec())
    }

    fn statement_select_all() -> (statement: String) {
        let statement = select_all_statement("entries", &Self::columns());
        assert(statement@ == Self::statement_select_all_spec());
        statement
    }
}

impl SelectableByPrimaryKey for Entry {
    open spec fn statement_select_spec() -> Seq<char> {
        select_text(select_all_text("entries"@, Self::columns_spec()))
    }

    fn statement_select() -> (statement: String) {
        let statement = select_statement(Self::statement_select_all().as_str());
        assert(statement@ == Self::statement_select_spec());
        statement
    }
}

/// A value of `Entry` that was stored under a key is read back from its row
/// with that key and with every field as it was.
impl ReadBack for Entry {
    open spec fn selected_row(id: i64, value: Entry) -> Seq<SqlValueView> {
        stored_row(id, value.fields()->0)
    }

    open spec fn handed_out(id: i64, value: Entry) -> <Entry as Decodable>::Output {
        Record { identifier: PrimaryKey(id, core::marker::PhantomData), value }
    }

    proof fn lemma_read_back(id: i64, value: Entry) {
        value.evidence.lemma_stored();
        value.account.lemma_stored();
        value.cost_center.lemma_stored();
        value.amount.lemma_stored();
        value.description.lemma_stored();
    }
}

/// Whether `example` is the example entry for the outcome of inserting its
/// cost center: the entry of 32 major units without a description on the
/// given document, account and cost center, or the failure of the
/// insertion.
pub open spec fn entry_after_cost_center(
    evidence: PrimaryKey<Document>,
    account: PrimaryKey<Account>,
    cost_center: Result<PrimaryKey<CostCenter>, DatabaseError>,
    example: Result<Entry, DatabaseError>,
) -> bool {
    match cost_center {
        Err(error) => example == Err::<Entry, DatabaseError>(error),
        Ok(cost_center) => {
            &&& example is Ok
            &&& example->Ok_0.evidence == evidence
            &&& example->Ok_0.account == account
            &&& example->Ok_0.cost_center == cost_center
            &&& example->Ok_0.amount == Amount(3200)
            &&& example->Ok_0.description@.len() == 0
        },
    }
}

/// Whether `example` is the example entry for the outcome of inserting its
/// account: the failure of the insertion, or the example entry for what the
/// insertion of a default cost center gives.
pub open spec fn entry_after_account(
    database: &Database,
    evidence: PrimaryKey<Document>,
    account: Result<PrimaryKey<Account>, DatabaseError>,
    example: Result<Entry, DatabaseError>,
) -> bool {
    match account {
        Err(error) => example == Err::<Entry, DatabaseError>(error),
        Ok(account) => exists|
            cost_center_value: CostCenter,
            cost_center: Result<PrimaryKey<CostCenter>, DatabaseError>,
        |
            {
                &&& call_ensures(CostCenter::default, (), cost_center_value)
                &&& #[trigger] made_and_inserted(
                    database,
                    Ok::<CostCenter, DatabaseError>(cost_center_value),
                    cost_center,
                )
                &&& entry_after_cost_center(evidence, account, cost_center, example)
            },
    }
}

/// Whether `example` is the example entry for the outcome of inserting its
/// document: the failure of the insertion, or the example entry for what the
/// insertion of the example account gives.
pub open spec fn entry_after_evidence(
    database: &Database,
    evidence: Result<PrimaryKey<Document>, DatabaseError>,
    example: Result<Entry, DatabaseError>,
) -> bool {
    match evidence {
        Err(error) => example == Err::<Entry, DatabaseError>(error),
        Ok(evidence) => exists|
            account_value: Result<Account, DatabaseError>,
            account: Result<PrimaryKey<Account>, DatabaseError>,
        |
            {
                &&& call_ensures(Account::create_default, (database,), account_value)
                &&& #[trigger] made_and_inserted(database, account_value, account)
                &&& entry_after_account(database, evidence, account, example)
            },
    }
}

impl DefaultGenerator for Entry {
    /// An example entry of 32 major units, with a new example document,
    /// account and cost center to refer to, which are inserted first, in
    /// this order. The first failure is the failure of the example: the
    /// store can fail, and the example document cannot be stored where its
    /// dates cannot. The example can be stored.
    fn create_default(database: &Database) -> (example: Result<Self, DatabaseError>)
        ensures
            exists|
                document: Result<Document, DatabaseError>,
                evidence: Result<PrimaryKey<Document>, DatabaseError>,
            |
                {
                    &&& call_ensures(Document::create_default, (database,), document)
                    &&& #[trigger] made_and_inserted(database, document, evidence)
                    &&& entry_after_evidence(database, evidence, example)
                },
            example is Ok ==> example->Ok_0.fields() is Some,
            example is Err ==> example->Err_0.kind == ErrorKind::Store || example->Err_0.kind
                == ErrorKind::Conversion,
    {
        let document = Document::create_default(database);
        let ghost document_made = document;
        let evidence = insert_made(database, document);
        let ghost evidence_given = evidence;
        assert(call_ensures(Document::create_default, (database,), document_made)
            && made_and_inserted(database, document_made, evidence_given));
        let evidence = match evidence {
            Ok(key) => key,
            Err(error) => {
                let example = Err(error);
                assert(entry_after_evidence(database, evidence_given, example));
                return example;
            },
        };
        let account_value = Account::create_default(database);
        let ghost account_made = account_value;
        let account = insert_made(database, account_value);
        let ghost account_given = account;
        assert(call_ensures(Account::create_default, (database,), account_made)
            && made_and_inserted(database, account_made, account_given));
        let account = match account {
            Ok(key) => key,
            Err(error) => {
                let example = Err(error);
                assert(entry_after_account(database, evidence, account_given, example));
                assert(entry_after_evidence(database, evidence_given, example));
                return example;
            },
        };
        let cost_center_value = CostCenter::default();
        let ghost default_cost_center = cost_center_value;
        let cost_center = insert_made(database, Ok(cost_center_value));
        let ghost cost_center_given = cost_center;
        assert(call_ensures(CostCenter::default, (), default_cost_center) && made_and_inserted(
            database,
            Ok::<CostCenter, DatabaseError>(default_cost_center),
            cost_center_given,
        ));
        let example = match cost_center {
            Ok(cost_center) => Ok(
                Entry {
                    evidence,
                    account,
                    cost_center,
                    amount: Amount::from_integer(32),
                    description: String::new(),
                },
            ),
            Err(error) => Err(error),
        };
        assert(entry_after_cost_center(evidence, account, cost_center_given, example));
        assert(entry_after_account(database, evidence, account_given, example));
        assert(entry_after_evidence(database, evidence_given, example));
        example
    }
}

} // verus!
