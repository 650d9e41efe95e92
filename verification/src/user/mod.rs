//! The users of the application and their passwords.
use vstd::prelude::*;
use vstd::std_specs::convert::{FromSpec, FromSpecImpl};
use vstd::string::StringSliceAdditionalSpecFns;
use vstd::utf8::encode_utf8;

use crate::database::column_type::DatabaseType;
use crate::database::dependency::{Dependency, DependencyView};
use crate::database::error::{DatabaseError, ErrorKind};
use crate::database::primary_key::PrimaryKey;
use crate::database::record::Record;
use crate::database::schema::{
    column_of, columns_view, create_table_statement, create_table_text, insert_statement,
    insert_text, names_view, select_statement, select_text, sortable_columns, Column, ColumnView,
};
use crate::database::sqlite::{queried, Database};
use crate::database::traits::{
    dependency_of, deserialize_first, first_selected_by, selected, selected_first, stored_row,
    DatabaseEntry, Decodable, DefaultGenerator, Indexable, Insertable, ReadBack, Referenceable,
    Selectable, SelectableByPrimaryKey, Sortable,
};
use crate::database::value::{row_view, SqlValue, SqlValueView};
use crate::person::Person;
use crate::util::date::Date;

pub mod password_hash;

pub use self::password_hash::PasswordHash;

verus! {

/// One row of the table `users`.
#[derive(Debug, Clone, PartialEq, Eq)]
pub struct User {
    pub username: String,
    pub password_hash: PasswordHash,
    pub active: bool,
    pub creation_date: Date,
    pub related_to: Option<PrimaryKey<Person>>,
}

impl User {
    /// The columns of the table behind its key.
    pub open spec fn columns_spec() -> Seq<ColumnView> {
        seq![
            column_of::<String>("username"@),
            column_of::<PasswordHash>("password_hash"@),
            column_of::<bool>("active"@),
            column_of::<Date>("creation_date"@),
            column_of::<Option<PrimaryKey<Person>>>("related_to"@),
        ]
    }

    /// The columns of the table behind its key.
    pub fn columns() -> (columns: Vec<Column>)
        ensures
            columns_view(columns@) == Self::columns_spec(),
    {
        let mut columns: Vec<Column> = Vec::new();
        columns.push(Column::new::<String>("username"));
        columns.push(Column::new::<PasswordHash>("password_hash"));
        columns.push(Column::new::<bool>("active"));
        columns.push(Column::new::<Date>("creation_date"));
        columns.push(Column::new::<Option<PrimaryKey<Person>>>("related_to"));
        assert(columns_view(columns@) =~= Self::columns_spec());
        columns
    }
}

impl DatabaseEntry for User {
    open spec fn table_name_spec() -> Seq<char> {
        "users"@
    }

    open spec fn statement_create_table_spec() -> Seq<char> {
        create_table_text("users"@, Self::columns_spec(), Some("FOREIGN KEY(related_to) REFERENCES persons(id)"@))
    }

    open spec fn depends_on_spec() -> DependencyView {
        dependency_of::<Person>()
    }

    fn table_name() -> (name: &'static str) {
        "users"
    }

    fn statement_create_table() -> (statement: String) {
        create_table_statement("users", &Self::columns(), Some("FOREIGN KEY(related_to) REFERENCES persons(id)"))
    }

    fn depends_on() -> (dependencies: Dependency) {
        Person::dependency()
    }

    proof fn lemma_table_name() {
        reveal_strlit("users");
    }
}

impl Indexable for User {

}

impl Insertable for User {
    open spec fn statement_insert_spec() -> Seq<char> {
        insert_text("users"@, Self::columns_spec())
    }

    open spec fn fields(&self) -> Option<Seq<SqlValueView>> {
        if self.username.encode() is Some
            && self.password_hash.encode() is Some
            && self.active.encode() is Some
            && self.creation_date.encode() is Some
            && self.related_to.encode() is Some {
            Some(
                seq![
                    self.username.encode()->0,
                    self.password_hash.encode()->0,
                    self.active.encode()->0,
                    self.creation_date.encode()->0,
                    self.related_to.encode()->0,
                ],
            )
        } else {
            None
        }
    }

    fn statement_insert() -> (statement: String) {
        let statement = insert_statement("users", &Self::columns());
        assert(statement@ == Self::statement_insert_spec());
        statement
    }

    fn serialize_sql(&self) -> (params: Option<Vec<SqlValue>>) {
        let mut params: Vec<SqlValue> = Vec::new();
        match self.username.to_sql() {
            Some(value) => params.push(value),
            None => {
                return None;
            },
        }
        match self.password_hash.to_sql() {
            Some(value) => params.push(value),
            None => {
                return None;
            },
        }
        match self.active.to_sql() {
            Some(value) => params.push(value),
            None => {
                return None;
            },
        }
        match self.creation_date.to_sql() {
            Some(value) => params.push(value),
            None => {
                return None;
            },
        }
        match self.related_to.to_sql() {
            Some(value) => params.push(value),
            None => {
                return None;
            },
        }
        assert(row_view(params@) =~= self.fields()->0);
        Some(params)
    }
}

/// What is handed out of a user: everything but the password hash.
#[derive(Debug, Clone, PartialEq, Eq)]
pub struct Metadata {
    pub identifier: PrimaryKey<User>,
    pub username: String,
    pub active: bool,
    pub creation_date: Date,
    pub related_to: Option<PrimaryKey<Person>>,
}

impl From<Record<User>> for Metadata {
    fn from(value: Record<User>) -> (metadata: Metadata) {
        let identifier = value.identifier;
        let value: User = value.value;
        Metadata {
            identifier,
            username: value.username,
            active: value.active,
            creation_date: value.creation_date,
            related_to: value.related_to,
        }
    }
}

impl FromSpecImpl<Record<User>> for Metadata {
    open spec fn obeys_from_spec() -> bool {
        true
    }

    open spec fn from_spec(value: Record<User>) -> Metadata {
        Metadata {
            identifier: value.identifier,
            username: value.value.username,
            active: value.value.active,
            creation_date: value.value.creation_date,
            related_to: value.value.related_to,
        }
    }
}

impl Sortable for User {
    open spec fn sortable_columns_spec() -> Seq<Seq<char>> {
        seq!["id"@, "creation_date"@]
    }

    fn sortable_columns() -> (names: Vec<&'static str>) {
        let mut names: Vec<&'static str> = Vec::new();
        names.push("id");
        names.push("creation_date");
        assert(names_view(names@) =~= Self::sortable_columns_spec());
        names
    }

    proof fn lemma_sortable_columns() {
    }
}

impl Decodable for User {
    type Output = Metadata;

    open spec fn accepts(row: Seq<SqlValueView>) -> bool {
        &&& row.len() == 5
        &&& row[0] is Integer
        &&& <String as DatabaseType>::accepts(row[1])
        &&& <bool as DatabaseType>::accepts(row[2])
        &&& <Date as DatabaseType>::accepts(row[3])
        &&& <Option<PrimaryKey<Person>> as DatabaseType>::accepts(row[4])
    }

    open spec fn decodes(row: Seq<SqlValueView>, output: Metadata) -> bool {
        &&& row.len() == 5
        &&& row[0] is Integer
        &&& output.identifier.0 == row[0]->Integer_0
        &&& <String as DatabaseType>::decodes(row[1], output.username)
        &&& <bool as DatabaseType>::decodes(row[2], output.active)
        &&& <Date as DatabaseType>::decodes(row[3], output.creation_date)
        &&& <Option<PrimaryKey<Person>> as DatabaseType>::decodes(row[4], output.related_to)
    }

    fn deserialize_sql(row: &Vec<SqlValue>) -> (output: Option<Metadata>) {
        if row.len() != 5 {
            return None;
        }
        let identifier = match &row[0] {
            SqlValue::Integer(id) => PrimaryKey(*id, core::marker::PhantomData),
            _ => {
                return None;
            },
        };
        let username = match <String as DatabaseType>::from_sql(&row[1]) {
            Some(value) => value,
            None => {
                return None;
            },
        };
        let active = match <bool as DatabaseType>::from_sql(&row[2]) {
            Some(value) => value,
            None => {
                return None;
            },
        };
        let creation_date = match <Date as DatabaseType>::from_sql(&row[3]) {
            Some(value) => value,
            None => {
                return None;
            },
        };
        let related_to = match <Option<PrimaryKey<Person>> as DatabaseType>::from_sql(&row[4]) {
            Some(value) => value,
            None => {
                return None;
            },
        };
        Some(Metadata { identifier, username, active, creation_date, related_to })
    }
}

impl Selectable for User {
    open spec fn statement_select_all_spec() -> Seq<char> {
        "SELECT id, username, active, creation_date, related_to FROM users"@
    }

    fn statement_select_all() -> (statement: String) {
        let statement = "SELECT id, username, active, creation_date, related_to FROM users".to_owned();
        assert(statement@ == Self::statement_select_all_spec());
        statement
    }
}

impl SelectableByPrimaryKey for User {
    open spec fn statement_select_spec() -> Seq<char> {
        select_text("SELECT id, username, active, creation_date, related_to FROM users"@)
    }

    fn statement_select() -> (statement: String) {
        let statement = select_statement(Self::statement_select_all().as_str());
        assert(statement@ == Self::statement_select_spec());
        statement
    }
}

/// The row that the select statement gives for a value stored under a key.
pub open spec fn selected_row(id: i64, value: User) -> Seq<SqlValueView> {
    seq![
        SqlValueView::Integer(id),
        value.username.encode()->0,
        value.active.encode()->0,
        value.creation_date.encode()->0,
        value.related_to.encode()->0,
    ]
}

/// A value of `User` that was stored under a key is selected as the metadata
/// with that key and with every field that the metadata carries as it was.
impl ReadBack for User {
    open spec fn selected_row(id: i64, value: User) -> Seq<SqlValueView> {
        selected_row(id, value)
    }

    open spec fn handed_out(id: i64, value: User) -> <User as Decodable>::Output {
        <Metadata as FromSpec<Record<User>>>::from_spec(
            Record { identifier: PrimaryKey(id, core::marker::PhantomData), value },
        )
    }

    proof fn lemma_read_back(id: i64, value: User) {
        value.username.lemma_stored();
        value.active.lemma_stored();
        value.creation_date.lemma_stored();
        value.related_to.lemma_stored();
    }
}

impl DefaultGenerator for User {
    /// An example user named Chris.
    fn create_default(database: &Database) -> (example: Result<Self, DatabaseError>)
        ensures
            example is Ok,
            example->Ok_0.username@ == "Chris"@,
            call_ensures(User::hash_password, ("Chris", "test1234"), example->Ok_0.password_hash),
            example->Ok_0.active,
            Date::clock_gave(example->Ok_0.creation_date),
            example->Ok_0.related_to is None,
    {
        let password_hash = User::hash_password("Chris", "test1234");
        assert(call_ensures(User::hash_password, ("Chris", "test1234"), password_hash));
        Ok(
            User {
                username: "Chris".to_owned(),
                password_hash,
                active: true,
                creation_date: Date::today(),
                related_to: None,
            },
        )
    }
}

/// The reading of a whole row of the table of users, password hash
/// included.
pub struct StoredUser;

impl Decodable for StoredUser {
    type Output = Record<User>;

    open spec fn accepts(row: Seq<SqlValueView>) -> bool {
        &&& row.len() == 6
        &&& row[0] is Integer
        &&& <String as DatabaseType>::accepts(row[1])
        &&& <PasswordHash as DatabaseType>::accepts(row[2])
        &&& <bool as DatabaseType>::accepts(row[3])
        &&& <Date as DatabaseType>::accepts(row[4])
        &&& <Option<PrimaryKey<Person>> as DatabaseType>::accepts(row[5])
    }

    open spec fn decodes(row: Seq<SqlValueView>, output: Record<User>) -> bool {
        &&& row.len() == 6
        &&& row[0] is Integer
        &&& output.identifier.0 == row[0]->Integer_0
        &&& <String as DatabaseType>::decodes(row[1], output.value.username)
        &&& <PasswordHash as DatabaseType>::decodes(row[2], output.value.password_hash)
        &&& <bool as DatabaseType>::decodes(row[3], output.value.active)
        &&& <Date as DatabaseType>::decodes(row[4], output.value.creation_date)
        &&& <Option<PrimaryKey<Person>> as DatabaseType>::decodes(row[5], output.value.related_to)
    }

    fn deserialize_sql(row: &Vec<SqlValue>) -> (output: Option<Record<User>>) {
        if row.len() != 6 {
            return None;
        }
        let identifier = match &row[0] {
            SqlValue::Integer(id) => PrimaryKey(*id, core::marker::PhantomData),
            _ => {
                return None;
            },
        };
        let username = match <String as DatabaseType>::from_sql(&row[1]) {
            Some(value) => value,
            None => {
                return None;
            },
        };
        let password_hash = match <PasswordHash as DatabaseType>::from_sql(&row[2]) {
            Some(value) => value,
            None => {
                return None;
            },
        };
        let active = match <bool as DatabaseType>::from_sql(&row[3]) {
            Some(value) => value,
            None => {
                return None;
            },
        };
        let creation_date = match <Date as DatabaseType>::from_sql(&row[4]) {
            Some(value) => value,
            None => {
                return None;
            },
        };
        let related_to = match <Option<PrimaryKey<Person>> as DatabaseType>::from_sql(&row[5]) {
            Some(value) => value,
            None => {
                return None;
            },
        };
        Some(
            Record {
                identifier,
                value: User { username, password_hash, active, creation_date, related_to },
            },
        )
    }
}

impl User {
    /// The hash of a password for a user name, or an invalid hash where the
    /// name or the password is too long to be hashed.
    pub fn hash_password(username: &str, password: &str) -> (hash: PasswordHash)
        ensures
            hash.1 <==> username.spec_bytes().len() + 5 <= password_hash::MAX_SALT_LEN
                && password.spec_bytes().len() <= password_hash::MAX_SECRET_LEN,
            hash.1 ==> hash.0@ == password_hash::credential_of(
                username.spec_bytes(),
                password.spec_bytes(),
            ),
    {
        if username.as_bytes().len() as u64 <= password_hash::MAX_SALT_LEN - 5
            && password.as_bytes().len() as u64 <= password_hash::MAX_SECRET_LEN {
            PasswordHash::new(username, password)
        } else {
            PasswordHash::invalid()
        }
    }

    /// Select a user by its name, with the password hash: nothing where no
    /// user has the name, and a conversion error where the row cannot be
    /// decoded.
    pub fn select_by_name(database: &Database, name: &str) -> (user: Result<
        Option<Record<User>>,
        DatabaseError,
    >)
        ensures
            first_selected_by::<StoredUser>(
                database,
                "SELECT * FROM users WHERE username = ?"@,
                seq![SqlValueView::Text(name@)],
                user,
            ),
            user is Ok ==> exists|rows: Seq<Option<Vec<SqlValue>>>| #[trigger]
                selected_first::<StoredUser>(rows, user),
            user is Err ==> user->Err_0.kind == ErrorKind::Store || user->Err_0.kind
                == ErrorKind::Conversion,
    {
        let mut params: Vec<SqlValue> = Vec::new();
        params.push(SqlValue::Text(name.to_owned()));
        let text = "SELECT * FROM users WHERE username = ?";
        let found = database.query(text, &params);
        let ghost given = found;
        proof {
            assert(row_view(params@) =~= seq![SqlValueView::Text(name@)]);
            assert(call_ensures(Database::query, (database, text, &params), given));
            assert(queried(database, text@, seq![SqlValueView::Text(name@)], given));
        }
        match found {
            Ok(rows) => {
                let user = deserialize_first::<StoredUser>(&rows);
                assert(selected_first::<StoredUser>(rows@, user));
                user
            },
            Err(error) => Err(error),
        }
    }
}

/// A user that was stored under a key is read back whole, with the password
/// hash, from the row of the table.
pub proof fn lemma_stored_user_round_trip(id: i64, value: User)
    requires
        value.fields() is Some,
    ensures
        StoredUser::accepts(stored_row(id, value.fields()->0)),
        StoredUser::decodes(
            stored_row(id, value.fields()->0),
            Record { identifier: PrimaryKey(id, core::marker::PhantomData), value },
        ),
{
    value.username.lemma_stored();
    value.password_hash.lemma_stored();
    value.active.lemma_stored();
    value.creation_date.lemma_stored();
    value.related_to.lemma_stored();
}

/// Why the parts that were sent do not make a user.
#[derive(Debug, Clone, Copy, PartialEq, Eq, Structural)]
pub enum UserError {
    /// Both a password and a password hash were sent.
    AmbiguousPassword,
}

impl UserError {
    /// The text of the error.
    pub fn to_string(&self) -> (text: String)
        ensures
            text@ == "'password' and 'password_hash' could not be used together"@,
    {
        "'password' and 'password_hash' could not be used together".to_owned()
    }
}

impl User {
    /// The user made from the parts that were sent. The password hash is
    /// the one that was sent, or the hash of the password that was sent, or
    /// an invalid hash where neither was sent. To send both is an error.
    pub fn from_parts(
        username: String,
        password_hash: Option<PasswordHash>,
        password: Option<String>,
        active: bool,
        creation_date: Date,
        related_to: Option<PrimaryKey<Person>>,
    ) -> (user: Result<User, UserError>)
        ensures
            user is Err <==> password is Some && password_hash is Some,
            user is Ok ==> {
                &&& user->Ok_0.username == username
                &&& user->Ok_0.active == active
                &&& user->Ok_0.creation_date == creation_date
                &&& user->Ok_0.related_to == related_to
                &&& password_hash is Some ==> user->Ok_0.password_hash == password_hash->0
                &&& password is None && password_hash is None ==> !user->Ok_0.password_hash.1
                &&& password is Some ==> {
                    let hash = user->Ok_0.password_hash;
                    &&& hash.1 <==> encode_utf8(username@).len() + 5
                        <= password_hash::MAX_SALT_LEN && encode_utf8(password->0@).len()
                        <= password_hash::MAX_SECRET_LEN
                    &&& hash.1 ==> hash.0@ == password_hash::credential_of(
                        encode_utf8(username@),
                        encode_utf8(password->0@),
                    )
                }
            },
    {
        let password_hash = match (&password, &password_hash) {
            (Some(value), None) => User::hash_password(username.as_str(), value.as_str()),
            (None, Some(value)) => *value,
            (None, None) => PasswordHash::invalid(),
            (Some(_), Some(_)) => {
                return Err(UserError::AmbiguousPassword);
            },
        };
        Ok(User { username, password_hash, active, creation_date, related_to })
    }
}

} // verus!
