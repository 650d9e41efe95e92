//! Documents and what is known about them.
use vstd::prelude::*;
use vstd::std_specs::convert::{FromSpec, FromSpecImpl};

use crate::database::column_type::DatabaseType;
use crate::database::dependency::{Dependency, DependencyView};
use crate::database::error::{DatabaseError, ErrorKind};
use crate::database::primary_key::PrimaryKey;
use crate::database::record::Record;
use crate::database::schema::{
    column_of, columns_view, create_table_statement, create_table_text, insert_statement,
    insert_text, names_view, select_statement, select_text, sortable_columns, Column, ColumnView,
};
use crate::database::sqlite::{blob_read, queried, Database};
use crate::database::traits::{
    dependency_of, deserialize_all, insert_made, made_and_inserted, selected, DatabaseEntry,
    Decodable, DefaultGenerator, Indexable, Insertable, ReadBack, Referenceable, Selectable,
    SelectableByPrimaryKey, Sortable,
};
use crate::database::value::{row_view, SqlValue, SqlValueView};
use crate::person::Person;
use crate::text::{from_chars, push_str};
use crate::user::User;
use crate::util::date::Date;

verus! {

/// One row of the table `documents`.
#[derive(Debug, Clone, PartialEq, Eq)]
pub struct Document {
    pub document: Vec<u8>,
    pub processed_by: PrimaryKey<User>,
    pub from_person: PrimaryKey<Person>,
    pub to_person: PrimaryKey<Person>,
    pub recieved: Date,
    pub processed: Date,
    pub description: String,
}

impl Document {
    /// The columns of the table behind its key.
    pub open spec fn columns_spec() -> Seq<ColumnView> {
        seq![
            column_of::<Vec<u8>>("document"@),
            column_of::<PrimaryKey<User>>("processed_by"@),
            column_of::<PrimaryKey<Person>>("from_person"@),
            column_of::<PrimaryKey<Person>>("to_person"@),
            column_of::<Date>("recieved"@),
            column_of::<Date>("processed"@),
            column_of::<String>("description"@),
        ]
    }

    /// The columns of the table behind its key.
    pub fn columns() -> (columns: Vec<Column>)
        ensures
            columns_view(columns@) == Self::columns_spec(),
    {
        let mut columns: Vec<Column> = Vec::new();
        columns.push(Column::new::<Vec<u8>>("document"));
        columns.push(Column::new::<PrimaryKey<User>>("processed_by"));
        columns.push(Column::new::<PrimaryKey<Person>>("from_person"));
        columns.push(Column::new::<PrimaryKey<Person>>("to_person"));
        columns.push(Column::new::<Date>("recieved"));
        columns.push(Column::new::<Date>("processed"));
        columns.push(Column::new::<String>("description"));
        assert(columns_view(columns@) =~= Self::columns_spec());
        columns
    }
}

impl DatabaseEntry for Document {
    open spec fn table_name_spec() -> Seq<char> {
        "documents"@
    }

    open spec fn statement_create_table_spec() -> Seq<char> {
        create_table_text("documents"@, Self::columns_spec(), Some("FOREIGN KEY(processed_by) REFERENCES users(id), FOREIGN KEY(from_person) REFERENCES persons(id), FOREIGN KEY(to_person) REFERENCES persons(id)"@))
    }

    open spec fn depends_on_spec() -> DependencyView {
        DependencyView::Pair(Box::new(dependency_of::<Person>()), Box::new(dependency_of::<User>()))
    }

    fn table_name() -> (name: &'static str) {
        "documents"
    }

    fn statement_create_table() -> (statement: String) {
        create_table_statement("documents", &Self::columns(), Some("FOREIGN KEY(processed_by) REFERENCES users(id), FOREIGN KEY(from_person) REFERENCES persons(id), FOREIGN KEY(to_person) REFERENCES persons(id)"))
    }

    fn depends_on() -> (dependencies: Dependency) {
        Dependency::Pair(Box::new(Person::dependency()), Box::new(User::dependency()))
    }

    proof fn lemma_table_name() {
        reveal_strlit("documents");
    }
}

impl Indexable for Document {

}

impl Insertable for Document {
    open spec fn statement_insert_spec() -> Seq<char> {
        insert_text("documents"@, Self::columns_spec())
    }

    open spec fn fields(&self) -> Option<Seq<SqlValueView>> {
        if self.document.encode() is Some
            && self.processed_by.encode() is Some
            && self.from_person.encode() is Some
            && self.to_person.encode() is Some
            && self.recieved.encode() is Some
            && self.processed.encode() is Some
            && self.description.encode() is Some {
            Some(
                seq![
                    self.document.encode()->0,
                    self.processed_by.encode()->0,
                    self.from_person.encode()->0,
                    self.to_person.encode()->0,
                    self.recieved.encode()->0,
                    self.processed.encode()->0,
                    self.description.encode()->0,
                ],
            )
        } else {
            None
        }
    }

    fn statement_insert() -> (statement: String) {
        let statement = insert_statement("documents", &Self::columns());
        assert(statement@ == Self::statement_insert_spec());
        statement
    }

    fn serialize_sql(&self) -> (params: Option<Vec<SqlValue>>) {
        let mut params: Vec<SqlValue> = Vec::new();
        match self.document.to_sql() {
            Some(value) => params.push(value),
            None => {
                return None;
            },
        }
        match self.processed_by.to_sql() {
            Some(value) => params.push(value),
            None => {
                return None;
            },
        }
        match self.from_person.to_sql() {
            Some(value) => params.push(value),
            None => {
                return None;
            },
        }
        match self.to_person.to_sql() {
            Some(value) => params.push(value),
            None => {
                return None;
            },
        }
        match self.recieved.to_sql() {
            Some(value) => params.push(value),
            None => {
                return None;
            },
        }
        match self.processed.to_sql() {
            Some(value) => params.push(value),
            None => {
                return None;
            },
        }
        match self.description.to_sql() {
            Some(value) => params.push(value),
            None => {
                return None;
            },
        }
        assert(row_view(params@) =~= self.fields()->0);
        Some(params)
    }
}

/// The metadata of a document without the (large) document itself.
#[derive(Debug, Clone, PartialEq, Eq)]
pub struct Metadata {
    pub identifier: PrimaryKey<Document>,
    pub processed_by: PrimaryKey<User>,
    pub from_person: PrimaryKey<Person>,
    pub to_person: PrimaryKey<Person>,
    pub recieved: Date,
    pub processed: Date,
    pub description: String,
}

impl From<Record<Document>> for Metadata {
    fn from(value: Record<Document>) -> (metadata: Metadata) {
        let identifier = value.identifier;
        let value: Document = value.value;
        Metadata {
            identifier,
            processed_by: value.processed_by,
            from_person: value.from_person,
            to_person: value.to_person,
            recieved: value.recieved,
            processed: value.processed,
            description: value.description,
        }
    }
}

impl FromSpecImpl<Record<Document>> for Metadata {
    open spec fn obeys_from_spec() -> bool {
        true
    }

    open spec fn from_spec(value: Record<Document>) -> Metadata {
        Metadata {
            identifier: value.identifier,
            processed_by: value.value.processed_by,
            from_person: value.value.from_person,
            to_person: value.value.to_person,
            recieved: value.value.recieved,
            processed: value.value.processed,
            description: value.value.description,
        }
    }
}

impl Sortable for Document {
    open spec fn sortable_columns_spec() -> Seq<Seq<char>> {
        seq!["id"@, "recieved"@, "processed"@]
    }

    fn sortable_columns() -> (names: Vec<&'static str>) {
        let mut names: Vec<&'static str> = Vec::new();
        names.push("id");
        names.push("recieved");
        names.push("processed");
        assert(names_view(names@) =~= Self::sortable_columns_spec());
        names
    }

    proof fn lemma_sortable_columns() {
    }
}

impl Decodable for Document {
    type Output = Metadata;

    open spec fn accepts(row: Seq<SqlValueView>) -> bool {
        &&& row.len() == 7
        &&& row[0] is Integer
        &&& <PrimaryKey<User> as DatabaseType>::accepts(row[1])
        &&& <PrimaryKey<Person> as DatabaseType>::accepts(row[2])
        &&& <PrimaryKey<Person> as DatabaseType>::accepts(row[3])
        &&& <Date as DatabaseType>::accepts(row[4])
        &&& <Date as DatabaseType>::accepts(row[5])
        &&& <String as DatabaseType>::accepts(row[6])
    }

    open spec fn decodes(row: Seq<SqlValueView>, output: Metadata) -> bool {
        &&& row.len() == 7
        &&& row[0] is Integer
        &&& output.identifier.0 == row[0]->Integer_0
        &&& <PrimaryKey<User> as DatabaseType>::decodes(row[1], output.processed_by)
        &&& <PrimaryKey<Person> as DatabaseType>::decodes(row[2], output.from_person)
        &&& <PrimaryKey<Person> as DatabaseType>::decodes(row[3], output.to_person)
        &&& <Date as DatabaseType>::decodes(row[4], output.recieved)
        &&& <Date as DatabaseType>::decodes(row[5], output.processed)
        &&& <String as DatabaseType>::decodes(row[6], output.description)
    }

    fn deserialize_sql(row: &Vec<SqlValue>) -> (output: Option<Metadata>) {
        if row.len() != 7 {
            return None;
        }
        let identifier = match &row[0] {
            SqlValue::Integer(id) => PrimaryKey(*id, core::marker::PhantomData),
            _ => {
                return None;
            },
        };
        let processed_by = match <PrimaryKey<User> as DatabaseType>::from_sql(&row[1]) {
            Some(value) => value,
            None => {
                return None;
            },
        };
        let from_person = match <PrimaryKey<Person> as DatabaseType>::from_sql(&row[2]) {
            Some(value) => value,
            None => {
                return None;
            },
        };
        let to_person = match <PrimaryKey<Person> as DatabaseType>::from_sql(&row[3]) {
            Some(value) => value,
            None => {
                return None;
            },
        };
        let recieved = match <Date as DatabaseType>::from_sql(&row[4]) {
            Some(value) => value,
            None => {
                return None;
            },
        };
        let processed = match <Date as DatabaseType>::from_sql(&row[5]) {
            Some(value) => value,
            None => {
                return None;
            },
        };
        let description = match <String as DatabaseType>::from_sql(&row[6]) {
            Some(value) => value,
            None => {
                return None;
            },
        };
        Some(
            Metadata {
                identifier,
                processed_by,
                from_person,
                to_person,
                recieved,
                processed,
                description,
            },
        )
    }
}

impl Selectable for Document {
    open spec fn statement_select_all_spec() -> Seq<char> {
        "SELECT id, processed_by, from_person, to_person, recieved, processed, description FROM documents"@
    }

    fn statement_select_all() -> (statement: String) {
        let statement = "SELECT id, processed_by, from_person, to_person, recieved, processed, description FROM documents".to_owned();
        assert(statement@ == Self::statement_select_all_spec());
        statement
    }
}

impl SelectableByPrimaryKey for Document {
    open spec fn statement_select_spec() -> Seq<char> {
        select_text("SELECT id, processed_by, from_person, to_person, recieved, processed, description FROM documents"@)
    }

    fn statement_select() -> (statement: String) {
        let statement = select_statement(Self::statement_select_all().as_str());
        assert(statement@ == Self::statement_select_spec());
        statement
    }
}

/// The row that the select statement gives for a value stored under a key.
pub open spec fn selected_row(id: i64, value: Document) -> Seq<SqlValueView> {
    seq![
        SqlValueView::Integer(id),
        value.processed_by.encode()->0,
        value.from_person.encode()->0,
        value.to_person.encode()->0,
        value.recieved.encode()->0,
        value.processed.encode()->0,
        value.description.encode()->0,
    ]
}

/// A value of `Document` that was stored under a key is selected as the metadata
/// with that key and with every field that the metadata carries as it was.
impl ReadBack for Document {
    open spec fn selected_row(id: i64, value: Document) -> Seq<SqlValueView> {
        selected_row(id, value)
    }

    open spec fn handed_out(id: i64, value: Document) -> <Document as Decodable>::Output {
        <Metadata as FromSpec<Record<Document>>>::from_spec(
            Record { identifier: PrimaryKey(id, core::marker::PhantomData), value },
        )
    }

    proof fn lemma_read_back(id: i64, value: Document) {
        value.processed_by.lemma_stored();
        value.from_person.lemma_stored();
        value.to_person.lemma_stored();
        value.recieved.lemma_stored();
        value.processed.lemma_stored();
        value.description.lemma_stored();
    }
}

/// The reading of the rows that name the documents: the key, the date of
/// processing and the description.
pub struct DocumentLabel;

/// The label of a document: the date of processing, a blank and the
/// description.
pub open spec fn label_text(processed: Seq<char>, description: Seq<char>) -> Seq<char> {
    processed + " "@ + description
}

impl Decodable for DocumentLabel {
    type Output = (PrimaryKey<Document>, String);

    open spec fn accepts(row: Seq<SqlValueView>) -> bool {
        &&& row.len() == 3
        &&& row[0] is Integer
        &&& <Date as DatabaseType>::accepts(row[1])
        &&& <Option<String> as DatabaseType>::accepts(row[2])
    }

    open spec fn decodes(row: Seq<SqlValueView>, output: (PrimaryKey<Document>, String)) -> bool {
        &&& Self::accepts(row)
        &&& output.0.0 == row[0]->Integer_0
        &&& exists|processed: Date, description: Option<String>|
            {
                &&& <Date as DatabaseType>::decodes(row[1], processed)
                &&& <Option<String> as DatabaseType>::decodes(row[2], description)
                &&& output.1@ == label_text(
                    processed.text(),
                    match description {
                        Some(text) => text@,
                        None => Seq::<char>::empty(),
                    },
                )
            }
    }

    fn deserialize_sql(row: &Vec<SqlValue>) -> (output: Option<(PrimaryKey<Document>, String)>) {
        if row.len() != 3 {
            return None;
        }
        let identifier = match &row[0] {
            SqlValue::Integer(id) => PrimaryKey(*id, core::marker::PhantomData),
            _ => {
                return None;
            },
        };
        let processed = match <Date as DatabaseType>::from_sql(&row[1]) {
            Some(value) => value,
            None => {
                return None;
            },
        };
        let description = match <Option<String> as DatabaseType>::from_sql(&row[2]) {
            Some(value) => value,
            None => {
                return None;
            },
        };
        let mut out: Vec<char> = Vec::new();
        push_str(&mut out, processed.to_string().as_str());
        push_str(&mut out, " ");
        match &description {
            Some(text) => push_str(&mut out, text.as_str()),
            None => {},
        }
        let label = from_chars(&out);
        Some((identifier, label))
    }
}

impl Referenceable for Document {
    open spec fn statement_select_name_spec() -> Seq<char> {
        "SELECT id, processed, description FROM documents"@
    }

    open spec fn labelled(
        rows: Seq<Option<Vec<SqlValue>>>,
        labels: Seq<(PrimaryKey<Self>, String)>,
    ) -> bool {
        selected::<DocumentLabel>(rows, labels)
    }

    fn statement_select_name() -> (statement: String) {
        let statement = "SELECT id, processed, description FROM documents".to_owned();
        assert(statement@ == Self::statement_select_name_spec());
        statement
    }

    /// The key of every document with its label: the date of processing and
    /// the description.
    fn generate_descriptions(database: &Database) -> (labels: Result<
        Vec<(PrimaryKey<Self>, String)>,
        DatabaseError,
    >) {
        let statement = Self::statement_select_name();
        let text = statement.as_str();
        let params: Vec<SqlValue> = Vec::new();
        let found = database.query(text, &params);
        let ghost given = found;
        proof {
            assert(row_view(params@) =~= Seq::<SqlValueView>::empty());
            assert(call_ensures(Database::query, (database, text, &params), given));
            assert(queried(
                database,
                Self::statement_select_name_spec(),
                Seq::<SqlValueView>::empty(),
                given,
            ));
        }
        match found {
            Ok(rows) => {
                let decoded = deserialize_all::<DocumentLabel>(&rows);
                assert(Self::labelled(rows@, decoded@));
                let labels = Ok(decoded);
                assert(labels->Ok_0@ == decoded@);
                labels
            },
            Err(error) => Err(error),
        }
    }
}

impl Document {
    /// Read the document itself from the store: what the store gives for
    /// the blob in the column `document` of the row of the key.
    pub fn load_into_memory(
        database: &Database,
        identifier: PrimaryKey<Document>,
    ) -> (bytes: Result<Vec<u8>, DatabaseError>)
        ensures
            blob_read(database, Document::table_name_spec(), "document"@, identifier.0, bytes),
            bytes is Err ==> bytes->Err_0.kind == ErrorKind::Store,
    {
        let table = Document::table_name();
        let bytes = database.open_blob(table, "document", identifier.raw_index());
        assert(call_ensures(
            Database::open_blob,
            (database, table, "document", identifier.0),
            bytes,
        ));
        bytes
    }
}

/// Whether `example` is the example document for the outcome of inserting
/// its user, where `person` is the key of its person: the document without
/// bytes or description that the person sent to themselves and the user
/// processed, received and processed on days that the clock gave; or the
/// failure of the insertion.
pub open spec fn document_after_user(
    person: PrimaryKey<Person>,
    user: Result<PrimaryKey<User>, DatabaseError>,
    example: Result<Document, DatabaseError>,
) -> bool {
    match user {
        Err(error) => example == Err::<Document, DatabaseError>(error),
        Ok(user) => {
            &&& example is Ok
            &&& example->Ok_0.document@.len() == 0
            &&& example->Ok_0.processed_by == user
            &&& example->Ok_0.from_person == person
            &&& example->Ok_0.to_person == person
            &&& Date::clock_gave(example->Ok_0.recieved)
            &&& Date::clock_gave(example->Ok_0.processed)
            &&& example->Ok_0.description@.len() == 0
        },
    }
}

/// Whether `example` is the example document for the outcome of inserting
/// its person: the failure of the insertion, or the example document for
/// what the insertion of the example user gives.
pub open spec fn document_after_person(
    database: &Database,
    person: Result<PrimaryKey<Person>, DatabaseError>,
    example: Result<Document, DatabaseError>,
) -> bool {
    match person {
        Err(error) => example == Err::<Document, DatabaseError>(error),
        Ok(person) => exists|
            user_value: Result<User, DatabaseError>,
            user: Result<PrimaryKey<User>, DatabaseError>,
        |
            {
                &&& call_ensures(User::create_default, (database,), user_value)
                &&& #[trigger] made_and_inserted(database, user_value, user)
                &&& document_after_user(person, user, example)
            },
    }
}

impl DefaultGenerator for Document {
    /// An example document, sent and received by a new default person and
    /// processed by a new example user, who are inserted first, the person
    /// before the user. The first failure is the failure of the example:
    /// the store can fail, and the example user cannot be stored where the
    /// current date cannot.
    fn create_default(database: &Database) -> (example: Result<Self, DatabaseError>)
        ensures
            exists|person_value: Person, person: Result<PrimaryKey<Person>, DatabaseError>|
                {
                    &&& call_ensures(Person::default, (), person_value)
                    &&& #[trigger] made_and_inserted(
                        database,
                        Ok::<Person, DatabaseError>(person_value),
                        person,
                    )
                    &&& document_after_person(database, person, example)
                },
            example is Err ==> example->Err_0.kind == ErrorKind::Store || example->Err_0.kind
                == ErrorKind::Conversion,
    {
        let person_value = Person::default();
        let ghost default_person = person_value;
        let person = insert_made(database, Ok(person_value));
        let ghost person_given = person;
        let person = match person {
            Ok(key) => key,
            Err(error) => {
                let example = Err(error);
                assert(document_after_person(database, person_given, example));
                return example;
            },
        };
        let user_value = User::create_default(database);
        let ghost user_made = user_value;
        let user = insert_made(database, user_value);
        let ghost user_given = user;
        let example = match user {
            Ok(user) => Ok(
                Document {
                    document: Vec::new(),
                    processed_by: user,
                    from_person: person,
                    to_person: person,
                    recieved: Date::today(),
                    processed: Date::today(),
                    description: String::new(),
                },
            ),
            Err(error) => Err(error),
        };
        assert(document_after_user(person, user_given, example));
        assert(call_ensures(User::create_default, (database,), user_made) && made_and_inserted(
            database,
            user_made,
            user_given,
        ));
        assert(document_after_person(database, person_given, example));
        example
    }
}

} // verus!
