//! Persons, groups and the memberships that join them.
use vstd::prelude::*;

use crate::database::column_type::DatabaseType;
use crate::database::dependency::{Dependency, DependencyView};
use crate::database::error::{DatabaseError, ErrorKind};
use crate::database::primary_key::PrimaryKey;
use crate::database::record::Record;
use crate::database::schema::{
    column_of, columns_view, create_table_statement, create_table_text, insert_statement,
    insert_text, lemma_sortable_names, select_all_statement, select_all_text,
    select_name_statement, select_name_text, select_statement, select_text, sortable_columns,
    sortable_names, Column, ColumnView,
};
use crate::database::sqlite::{executed, queried, Database};
use crate::database::traits::{
    dependency_of, described, deserialize_all, select_descriptions, selected, selected_by,
    stored_row, DatabaseEntry, Decodable, DefaultGenerator, Indexable, Insertable, ReadBack,
    Referenceable, Selectable, SelectableByPrimaryKey, Sortable,
};
use crate::database::value::{row_view, SqlValue, SqlValueView};
use crate::util::date::Date;

verus! {

/// One row of the table `persons`.
#[derive(Debug, Clone, PartialEq, Eq)]
pub struct Person {
    pub name: String,
    pub address: String,
    pub email: Option<String>,
    pub birthday: Option<Date>,
    pub comment: Option<String>,
}

impl Default for Person {
    /// The value with every text empty, every number zero and nothing
    /// optional given.
    fn default() -> (value: Person)
        ensures
            value.name@ == Seq::<char>::empty(),
            value.address@ == Seq::<char>::empty(),
            value.email is None,
            value.birthday is None,
            value.comment is None,
    {
        Person {
            name: String::new(),
            address: String::new(),
            email: None,
            birthday: None,
            comment: None,
        }
    }
}

impl Person {
    /// The columns of the table behind its key.
    pub open spec fn columns_spec() -> Seq<ColumnView> {
        seq![
            column_of::<String>("name"@),
            column_of::<String>("address"@),
            column_of::<Option<String>>("email"@),
            column_of::<Option<Date>>("birthday"@),
            column_of::<Option<String>>("comment"@),
        ]
    }

    /// The columns of the table behind its key.
    pub fn columns() -> (columns: Vec<Column>)
        ensures
            columns_view(columns@) == Self::columns_spec(),
    {
        let mut columns: Vec<Column> = Vec::new();
        columns.push(Column::new::<String>("name"));
        columns.push(Column::new::<String>("address"));
        columns.push(Column::new::<Option<String>>("email"));
        columns.push(Column::new::<Option<Date>>("birthday"));
        columns.push(Column::new::<Option<String>>("comment"));
        assert(columns_view(columns@) =~= Self::columns_spec());
        columns
    }
}

impl DatabaseEntry for Person {
    open spec fn table_name_spec() -> Seq<char> {
        "persons"@
    }

    open spec fn statement_create_table_spec() -> Seq<char> {
        create_table_text("persons"@, Self::columns_spec(), None)
    }

    open spec fn depends_on_spec() -> DependencyView {
        DependencyView::Unit
    }

    fn table_name() -> (name: &'static str) {
        "persons"
    }

    fn statement_create_table() -> (statement: String) {
        create_table_statement("persons", &Self::columns(), None)
    }

    fn depends_on() -> (dependencies: Dependency) {
        Dependency::Unit
    }

    proof fn lemma_table_name() {
        reveal_strlit("persons");
    }
}

impl Indexable for Person {

}

impl Insertable for Person {
    open spec fn statement_insert_spec() -> Seq<char> {
        insert_text("persons"@, Self::columns_spec())
    }

    open spec fn fields(&self) -> Option<Seq<SqlValueView>> {
        if self.name.encode() is Some
            && self.address.encode() is Some
            && self.email.encode() is Some
            && self.birthday.encode() is Some
            && self.comment.encode() is Some {
            Some(
                seq![
                    self.name.encode()->0,
                    self.address.encode()->0,
                    self.email.encode()->0,
                    self.birthday.encode()->0,
                    self.comment.encode()->0,
                ],
            )
        } else {
            None
        }
    }

    fn statement_insert() -> (statement: String) {
        let statement = insert_statement("persons", &Self::columns());
        assert(statement@ == Self::statement_insert_spec());
        statement
    }

    fn serialize_sql(&self) -> (params: Option<Vec<SqlValue>>) {
        let mut params: Vec<SqlValue> = Vec::new();
        match self.name.to_sql() {
            Some(value) => params.push(value),
            None => {
                return None;
            },
        }
        match self.address.to_sql() {
            Some(value) => params.push(value),
            None => {
                return None;
            },
        }
        match self.email.to_sql() {
            Some(value) => params.push(value),
            None => {
                return None;
            },
        }
        match self.birthday.to_sql() {
            Some(value) => params.push(value),
            None => {
                return None;
            },
        }
        match self.comment.to_sql() {
            Some(value) => params.push(value),
            None => {
                return None;
            },
        }
        assert(row_view(params@) =~= self.fields()->0);
        Some(params)
    }
}

impl Sortable for Person {
    open spec fn sortable_columns_spec() -> Seq<Seq<char>> {
        sortable_names(Self::columns_spec())
    }

    fn sortable_columns() -> (names: Vec<&'static str>) {
        sortable_columns(&Self::columns())
    }

    proof fn lemma_sortable_columns() {
        lemma_sortable_names(Self::columns_spec());
    }
}

impl Decodable for Person {
    type Output = Record<Person>;

    open spec fn accepts(row: Seq<SqlValueView>) -> bool {
        &&& row.len() == 6
        &&& row[0] is Integer
        &&& <String as DatabaseType>::accepts(row[1])
        &&& <String as DatabaseType>::accepts(row[2])
        &&& <Option<String> as DatabaseType>::accepts(row[3])
        &&& <Option<Date> as DatabaseType>::accepts(row[4])
        &&& <Option<String> as DatabaseType>::accepts(row[5])
    }

    open spec fn decodes(row: Seq<SqlValueView>, output: Record<Person>) -> bool {
        &&& row.len() == 6
        &&& row[0] is Integer
        &&& output.identifier.0 == row[0]->Integer_0
        &&& <String as DatabaseType>::decodes(row[1], output.value.name)
        &&& <String as DatabaseType>::decodes(row[2], output.value.address)
        &&& <Option<String> as DatabaseType>::decodes(row[3], output.value.email)
        &&& <Option<Date> as DatabaseType>::decodes(row[4], output.value.birthday)
        &&& <Option<String> as DatabaseType>::decodes(row[5], output.value.comment)
    }

    fn deserialize_sql(row: &Vec<SqlValue>) -> (output: Option<Record<Person>>) {
        if row.len() != 6 {
            return None;
        }
        let identifier = match &row[0] {
            SqlValue::Integer(id) => PrimaryKey(*id, core::marker::PhantomData),
            _ => {
                return None;
            },
        };
        let name = match <String as DatabaseType>::from_sql(&row[1]) {
            Some(value) => value,
            None => {
                return None;
            },
        };
        let address = match <String as DatabaseType>::from_sql(&row[2]) {
            Some(value) => value,
            None => {
                return None;
            },
        };
        let email = match <Option<String> as DatabaseType>::from_sql(&row[3]) {
            Some(value) => value,
            None => {
                return None;
            },
        };
        let birthday = match <Option<Date> as DatabaseType>::from_sql(&row[4]) {
            Some(value) => value,
            None => {
                return None;
            },
        };
        let comment = match <Option<String> as DatabaseType>::from_sql(&row[5]) {
            Some(value) => value,
            None => {
                return None;
            },
        };
        Some(Record { identifier, value: Person { name, address, email, birthday, comment } })
    }
}

impl Selectable for Person {
    open spec fn statement_select_all_spec() -> Seq<char> {
        select_all_text("persons"@, Self::columns_spec())
    }

    fn statement_select_all() -> (statement: String) {
        let statement = select_all_statement("persons", &Self::columns());
        assert(statement@ == Self::statement_select_all_spec());
        statement
    }
}

impl SelectableByPrimaryKey for Person {
    open spec fn statement_select_spec() -> Seq<char> {
        select_text(select_all_text("persons"@, Self::columns_spec()))
    }

    fn statement_select() -> (statement: String) {
        let statement = select_statement(Self::statement_select_all().as_str());
        assert(statement@ == Self::statement_select_spec());
        statement
    }
}

/// A value of `Person` that was stored under a key is read back from its row
/// with that key and with every field as it was.
impl ReadBack for Person {
    open spec fn selected_row(id: i64, value: Person) -> Seq<SqlValueView> {
        stored_row(id, value.fields()->0)
    }

    open spec fn handed_out(id: i64, value: Person) -> <Person as Decodable>::Output {
        Record { identifier: PrimaryKey(id, core::marker::PhantomData), value }
    }

    proof fn lemma_read_back(id: i64, value: Person) {
        value.name.lemma_stored();
        value.address.lemma_stored();
        value.email.lemma_stored();
        value.birthday.lemma_stored();
        value.comment.lemma_stored();
    }
}

impl Referenceable for Person {
    open spec fn statement_select_name_spec() -> Seq<char> {
        select_name_text("persons"@, "name"@)
    }

    open spec fn labelled(
        rows: Seq<Option<Vec<SqlValue>>>,
        labels: Seq<(PrimaryKey<Self>, String)>,
    ) -> bool {
        described::<Self>(rows, labels)
    }

    fn statement_select_name() -> (statement: String) {
        let statement = select_name_statement("persons", "name");
        assert(statement@ == Self::statement_select_name_spec());
        statement
    }

    fn generate_descriptions(database: &Database) -> (labels: Result<
        Vec<(PrimaryKey<Self>, String)>,
        DatabaseError,
    >) {
        let labels = select_descriptions::<Self>(database, Self::statement_select_name().as_str());
        assert(labels is Ok ==> Self::labelled(
            choose|rows: Seq<Option<Vec<SqlValue>>>| described::<Self>(rows, labels->Ok_0@),
            labels->Ok_0@,
        ));
        labels
    }
}

/// One row of the table `groups`.
#[derive(Debug, Clone, PartialEq, Eq)]
pub struct Group {
    pub description: String,
}

impl Default for Group {
    /// The value with every text empty, every number zero and nothing
    /// optional given.
    fn default() -> (value: Group)
        ensures
            value.description@ == Seq::<char>::empty(),
    {
        Group { description: String::new() }
    }
}

impl Group {
    /// The columns of the table behind its key.
    pub open spec fn columns_spec() -> Seq<ColumnView> {
        seq![
            column_of::<String>("description"@),
        ]
    }

    /// The columns of the table behind its key.
    pub fn columns() -> (columns: Vec<Column>)
        ensures
            columns_view(columns@) == Self::columns_spec(),
    {
        let mut columns: Vec<Column> = Vec::new();
        columns.push(Column::new::<String>("description"));
        assert(columns_view(columns@) =~= Self::columns_spec());
        columns
    }
}

impl DatabaseEntry for Group {
    open spec fn table_name_spec() -> Seq<char> {
        "groups"@
    }

    open spec fn statement_create_table_spec() -> Seq<char> {
        create_table_text("groups"@, Self::columns_spec(), None)
    }

    open spec fn depends_on_spec() -> DependencyView {
        DependencyView::Unit
    }

    fn table_name() -> (name: &'static str) {
        "groups"
    }

    fn statement_create_table() -> (statement: String) {
        create_table_statement("groups", &Self::columns(), None)
    }

    fn depends_on() -> (dependencies: Dependency) {
        Dependency::Unit
    }

    proof fn lemma_table_name() {
        reveal_strlit("groups");
    }
}

impl Indexable for Group {

}

impl Insertable for Group {
    open spec fn statement_insert_spec() -> Seq<char> {
        insert_text("groups"@, Self::columns_spec())
    }

    open spec fn fields(&self) -> Option<Seq<SqlValueView>> {
        if self.description.encode() is Some {
            Some(seq![self.description.encode()->0])
        } else {
            None
        }
    }

    fn statement_insert() -> (statement: String) {
        let statement = insert_statement("groups", &Self::columns());
        assert(statement@ == Self::statement_insert_spec());
        statement
    }

    fn serialize_sql(&self) -> (params: Option<Vec<SqlValue>>) {
        let mut params: Vec<SqlValue> = Vec::new();
        match self.description.to_sql() {
            Some(value) => params.push(value),
            None => {
                return None;
            },
        }
        assert(row_view(params@) =~= self.fields()->0);
        Some(params)
    }
}

impl Sortable for Group {
    open spec fn sortable_columns_spec() -> Seq<Seq<char>> {
        sortable_names(Self::columns_spec())
    }

    fn sortable_columns() -> (names: Vec<&'static str>) {
        sortable_columns(&Self::columns())
    }

    proof fn lemma_sortable_columns() {
        lemma_sortable_names(Self::columns_spec());
    }
}

impl Decodable for Group {
    type Output = Record<Group>;

    open spec fn accepts(row: Seq<SqlValueView>) -> bool {
        &&& row.len() == 2
        &&& row[0] is Integer
        &&& <String as DatabaseType>::accepts(row[1])
    }

    open spec fn decodes(row: Seq<SqlValueView>, output: Record<Group>) -> bool {
        &&& row.len() == 2
        &&& row[0] is Integer
        &&& output.identifier.0 == row[0]->Integer_0
        &&& <String as DatabaseType>::decodes(row[1], output.value.description)
    }

    fn deserialize_sql(row: &Vec<SqlValue>) -> (output: Option<Record<Group>>) {
        if row.len() != 2 {
            return None;
        }
        let identifier = match &row[0] {
            SqlValue::Integer(id) => PrimaryKey(*id, core::marker::PhantomData),
            _ => {
                return None;
            },
        };
        let description = match <String as DatabaseType>::from_sql(&row[1]) {
            Some(value) => value,
            None => {
                return None;
            },
        };
        Some(Record { identifier, value: Group { description } })
    }
}

impl Selectable for Group {
    open spec fn statement_select_all_spec() -> Seq<char> {
        select_all_text("groups"@, Self::columns_spec())
    }

    fn statement_select_all() -> (statement: String) {
        let statement = select_all_statement("groups", &Self::columns());
        assert(statement@ == Self::statement_select_all_spec());
        statement
    }
}

impl SelectableByPrimaryKey for Group {
    open spec fn statement_select_spec() -> Seq<char> {
        select_text(select_all_text("groups"@, Self::columns_spec()))
    }

    fn statement_select() -> (statement: String) {
        let statement = select_statement(Self::statement_select_all().as_str());
        assert(statement@ == Self::statement_select_spec());
        statement
    }
}

/// A value of `Group` that was stored under a key is read back from its row
/// with that key and with every field as it was.
impl ReadBack for Group {
    open spec fn selected_row(id: i64, value: Group) -> Seq<SqlValueView> {
        stored_row(id, value.fields()->0)
    }

    open spec fn handed_out(id: i64, value: Group) -> <Group as Decodable>::Output {
        Record { identifier: PrimaryKey(id, core::marker::PhantomData), value }
    }

    proof fn lemma_read_back(id: i64, value: Group) {
        value.description.lemma_stored();
    }
}

impl Referenceable for Group {
    open spec fn statement_select_name_spec() -> Seq<char> {
        select_name_text("groups"@, "description"@)
    }

    open spec fn labelled(
        rows: Seq<Option<Vec<SqlValue>>>,
        labels: Seq<(PrimaryKey<Self>, String)>,
    ) -> bool {
        described::<Self>(rows, labels)
    }

    fn statement_select_name() -> (statement: String) {
        let statement = select_name_statement("groups", "description");
        assert(statement@ == Self::statement_select_name_spec());
        statement
    }

    fn generate_descriptions(database: &Database) -> (labels: Result<
        Vec<(PrimaryKey<Self>, String)>,
        DatabaseError,
    >) {
        let labels = select_descriptions::<Self>(database, Self::statement_select_name().as_str());
        assert(labels is Ok ==> Self::labelled(
            choose|rows: Seq<Option<Vec<SqlValue>>>| described::<Self>(rows, labels->Ok_0@),
            labels->Ok_0@,
        ));
        labels
    }
}

/// The membership of a person in a group. Its table has no key of its own:
/// the person and the group together are the key.
#[derive(Debug, Clone, PartialEq, Eq)]
pub struct Membership {
    pub person: PrimaryKey<Person>,
    pub group: PrimaryKey<Group>,
    pub updated: Option<Date>,
    pub comment: Option<String>,
}

impl DatabaseEntry for Membership {
    open spec fn table_name_spec() -> Seq<char> {
        "memberships"@
    }

    open spec fn statement_create_table_spec() -> Seq<char> {
        "CREATE TABLE IF NOT EXISTS memberships (person_id INTEGER NOT NULL, group_id INTEGER NOT NULL, updated DATETIME, comment STRING, PRIMARY KEY (person_id, group_id), FOREIGN KEY (person_id) REFERENCES persons(id), FOREIGN KEY (group_id) REFERENCES groups(id))"@
    }

    open spec fn depends_on_spec() -> DependencyView {
        DependencyView::Pair(
            Box::new(dependency_of::<Person>()),
            Box::new(dependency_of::<Group>()),
        )
    }

    fn table_name() -> (name: &'static str) {
        "memberships"
    }

    fn statement_create_table() -> (statement: String) {
        "CREATE TABLE IF NOT EXISTS memberships (person_id INTEGER NOT NULL, group_id INTEGER NOT NULL, updated DATETIME, comment STRING, PRIMARY KEY (person_id, group_id), FOREIGN KEY (person_id) REFERENCES persons(id), FOREIGN KEY (group_id) REFERENCES groups(id))".to_owned()
    }

    fn depends_on() -> (dependencies: Dependency) {
        Dependency::Pair(Box::new(Person::dependency()), Box::new(Group::dependency()))
    }

    proof fn lemma_table_name() {
        reveal_strlit("memberships");
    }
}

impl Decodable for Membership {
    type Output = Membership;

    open spec fn accepts(row: Seq<SqlValueView>) -> bool {
        &&& row.len() == 4
        &&& row[0] is Integer
        &&& row[1] is Integer
        &&& <Option<Date> as DatabaseType>::accepts(row[2])
        &&& <Option<String> as DatabaseType>::accepts(row[3])
    }

    open spec fn decodes(row: Seq<SqlValueView>, output: Membership) -> bool {
        &&& row.len() == 4
        &&& row[0] is Integer
        &&& row[1] is Integer
        &&& output.person.0 == row[0]->Integer_0
        &&& output.group.0 == row[1]->Integer_0
        &&& <Option<Date> as DatabaseType>::decodes(row[2], output.updated)
        &&& <Option<String> as DatabaseType>::decodes(row[3], output.comment)
    }

    fn deserialize_sql(row: &Vec<SqlValue>) -> (output: Option<Membership>) {
        if row.len() != 4 {
            return None;
        }
        let person = match &row[0] {
            SqlValue::Integer(id) => PrimaryKey(*id, core::marker::PhantomData),
            _ => {
                return None;
            },
        };
        let group = match &row[1] {
            SqlValue::Integer(id) => PrimaryKey(*id, core::marker::PhantomData),
            _ => {
                return None;
            },
        };
        let updated = match <Option<Date> as DatabaseType>::from_sql(&row[2]) {
            Some(value) => value,
            None => {
                return None;
            },
        };
        let comment = match <Option<String> as DatabaseType>::from_sql(&row[3]) {
            Some(value) => value,
            None => {
                return None;
            },
        };
        Some(Membership { person, group, updated, comment })
    }
}

impl Membership {
    /// The values of a membership in the order of its columns, where all of
    /// them can be stored.
    pub open spec fn fields(&self) -> Option<Seq<SqlValueView>> {
        if self.updated.encode() is Some && self.comment.encode() is Some {
            Some(
                seq![
                    SqlValueView::Integer(self.person.0),
                    SqlValueView::Integer(self.group.0),
                    self.updated.encode()->0,
                    self.comment.encode()->0,
                ],
            )
        } else {
            None
        }
    }

    /// The values to bind when the membership is inserted.
    pub fn serialize_sql(&self) -> (params: Option<Vec<SqlValue>>)
        ensures
            params is Some <==> self.fields() is Some,
            params is Some ==> row_view(params->0@) == self.fields()->0,
    {
        let mut params: Vec<SqlValue> = Vec::new();
        params.push(SqlValue::Integer(self.person.0));
        params.push(SqlValue::Integer(self.group.0));
        match self.updated.to_sql() {
            Some(value) => params.push(value),
            None => {
                return None;
            },
        }
        match self.comment.to_sql() {
            Some(value) => params.push(value),
            None => {
                return None;
            },
        }
        assert(row_view(params@) =~= self.fields()->0);
        Some(params)
    }

    /// Find all memberships of a single person.
    pub fn find_all_memberships(database: &Database, person: PrimaryKey<Person>) -> (found: Result<
        Vec<Membership>,
        DatabaseError,
    >)
        ensures
            selected_by::<Membership>(
                database,
                "SELECT person_id, group_id, updated, comment FROM memberships WHERE person_id = ?"@,
                seq![SqlValueView::Integer(person.0)],
                found,
            ),
            found is Ok ==> exists|rows: Seq<Option<Vec<SqlValue>>>| #[trigger]
                selected::<Membership>(rows, found->Ok_0@),
            found is Err ==> found->Err_0.kind == ErrorKind::Store,
    {
        let mut params: Vec<SqlValue> = Vec::new();
        params.push(SqlValue::Integer(person.0));
        let text = "SELECT person_id, group_id, updated, comment FROM memberships WHERE person_id = ?";
        let rows = database.query(text, &params);
        let ghost given = rows;
        proof {
            assert(row_view(params@) =~= seq![SqlValueView::Integer(person.0)]);
            assert(call_ensures(Database::query, (database, text, &params), given));
            assert(queried(database, text@, seq![SqlValueView::Integer(person.0)], given));
        }
        match rows {
            Ok(rows) => {
                let decoded = deserialize_all::<Membership>(&rows);
                assert(selected::<Membership>(rows@, decoded@));
                let found = Ok(decoded);
                assert(found->Ok_0@ == decoded@);
                found
            },
            Err(error) => Err(error),
        }
    }

    /// Find all members of a group.
    pub fn find_all_members(database: &Database, group: PrimaryKey<Group>) -> (found: Result<
        Vec<Membership>,
        DatabaseError,
    >)
        ensures
            selected_by::<Membership>(
                database,
                "SELECT person_id, group_id, updated, comment FROM memberships WHERE group_id = ?"@,
                seq![SqlValueView::Integer(group.0)],
                found,
            ),
            found is Ok ==> exists|rows: Seq<Option<Vec<SqlValue>>>| #[trigger]
                selected::<Membership>(rows, found->Ok_0@),
            found is Err ==> found->Err_0.kind == ErrorKind::Store,
    {
        let mut params: Vec<SqlValue> = Vec::new();
        params.push(SqlValue::Integer(group.0));
        let text = "SELECT person_id, group_id, updated, comment FROM memberships WHERE group_id = ?";
        let rows = database.query(text, &params);
        let ghost given = rows;
        proof {
            assert(row_view(params@) =~= seq![SqlValueView::Integer(group.0)]);
            assert(call_ensures(Database::query, (database, text, &params), given));
            assert(queried(database, text@, seq![SqlValueView::Integer(group.0)], given));
        }
        match rows {
            Ok(rows) => {
                let decoded = deserialize_all::<Membership>(&rows);
                assert(selected::<Membership>(rows@, decoded@));
                let found = Ok(decoded);
                assert(found->Ok_0@ == decoded@);
                found
            },
            Err(error) => Err(error),
        }
    }

    /// Insert the membership and give the number of rows that changed. A
    /// membership with a date that cannot be stored is refused before the
    /// store is asked.
    pub fn insert(&self, database: &Database) -> (changed: Result<usize, DatabaseError>)
        ensures
            self.fields() is None ==> changed is Err && changed->Err_0.kind
                == ErrorKind::Conversion,
            self.fields() is Some ==> executed(
                database,
                "INSERT INTO memberships (person_id, group_id, updated, comment) VALUES (?, ?, ?, ?)"@,
                self.fields()->0,
                changed,
            ),
            self.fields() is Some && changed is Err ==> changed->Err_0.kind == ErrorKind::Store,
    {
        match self.serialize_sql() {
            None => Err(
                DatabaseError::internal(ErrorKind::Conversion, "a field cannot be stored"),
            ),
            Some(params) => {
                let text =
                    "INSERT INTO memberships (person_id, group_id, updated, comment) VALUES (?, ?, ?, ?)";
                let changed = database.execute(text, &params);
                assert(call_ensures(Database::execute, (database, text, &params), changed));
                changed
            },
        }
    }

    /// Remove the membership of a person in a group and give the number of
    /// rows that changed: what the store gives for the `DELETE` statement
    /// with the two keys bound.
    pub fn remove(
        person: PrimaryKey<Person>,
        group: PrimaryKey<Group>,
        database: &Database,
    ) -> (changed: Result<usize, DatabaseError>)
        ensures
            executed(
                database,
                "DELETE FROM memberships WHERE person_id = ? AND group_id = ?"@,
                seq![SqlValueView::Integer(person.0), SqlValueView::Integer(group.0)],
                changed,
            ),
            changed is Err ==> changed->Err_0.kind == ErrorKind::Store,
    {
        let mut params: Vec<SqlValue> = Vec::new();
        params.push(SqlValue::Integer(person.0));
        params.push(SqlValue::Integer(group.0));
        let statement = "DELETE FROM memberships WHERE person_id = ? AND group_id = ?";
        let changed = database.execute(statement, &params);
        assert(row_view(params@) =~= seq![
            SqlValueView::Integer(person.0),
            SqlValueView::Integer(group.0),
        ]);
        assert(call_ensures(Database::execute, (database, statement, &params), changed));
        changed
    }
}

/// A membership that was stored is read back with every field as it was.
pub proof fn lemma_memberships_round_trip(value: Membership)
    requires
        value.fields() is Some,
    ensures
        Membership::accepts(value.fields()->0),
        Membership::decodes(value.fields()->0, value),
{
    value.updated.lemma_stored();
    value.comment.lemma_stored();
}

} // verus!
