use shelby::database::sample::Test;
use shelby::database::schema::{
    create_table_statement, insert_statement, select_all_statement, select_name_statement,
    select_statement, sortable_columns, Column,
};
use shelby::database::{
    Database, DatabaseEntry, DatabaseType, Insertable, PrimaryKey, Referenceable, Selectable,
    SelectableByPrimaryKey, Sortable,
};
use shelby::{Limit, Order, Pagination};

fn generate_pagination_data(pagination: Pagination<Test>) -> Vec<u32> {
    let database = Database::plain().expect("valid database");
    Test::create_table(&database).expect("valid table");

    for integer_value in [42u32, 43, 44] {
        Test {
            bool_value: false,
            string_value: String::from("ABC"),
            integer_value,
        }
        .insert(&database)
        .expect("insert sucessfull");
    }

    let created_values =
        Test::select_all_sorted(&database, pagination).expect("valid database query");

    created_values
        .iter()
        .map(|value| value.integer_value)
        .collect()
}

#[test]
fn macros_test_table_name() {
    assert_eq!(Test::table_name(), "tests");
}

#[test]
fn macros_test_create_table_statement() {
    assert_eq!(
        Test::statement_create_table(),
        "CREATE TABLE IF NOT EXISTS tests (id INTEGER PRIMARY KEY, bool_value BOOL NOT NULL, string_value TEXT NOT NULL, integer_value INTEGER NOT NULL )"
    );
}

#[test]
fn macros_test_insert_statement() {
    assert_eq!(
        Test::statement_insert(),
        "INSERT INTO tests (bool_value, string_value, integer_value) VALUES (?, ?, ?)"
    );
}

#[test]
fn macros_test_select_statement() {
    assert_eq!(
        Test::statement_select(),
        "SELECT id, bool_value, string_value, integer_value FROM tests WHERE id = ?"
    );
}

#[test]
fn macros_test_insert() {
    let database = Database::plain().expect("valid database");
    Test::create_table(&database).expect("valid table");

    Test {
        bool_value: false,
        string_value: String::from("ABC"),
        integer_value: 42,
    }
    .insert(&database)
    .expect("insert sucessfull");
}

#[test]
fn test_sortable_columns() {
    assert_eq!(Test::sortable_columns(), ["id", "id", "id", "integer_value"]);
}

#[test]
fn test_sorted_select_asc() {
    let pagination = Pagination::new("integer_value", 0, Limit::from(5), Order::Ascending)
        .expect("valid pagination");

    assert_eq!(generate_pagination_data(pagination), vec![42, 43, 44]);
}

#[test]
fn test_sorted_select_desc() {
    let pagination = Pagination::new("integer_value", 0, Limit::from(5), Order::Descending)
        .expect("valid pagination");

    assert_eq!(generate_pagination_data(pagination), vec![44, 43, 42]);
}

#[test]
fn test_sorted_select_desc_offset() {
    let pagination = Pagination::new("integer_value", 1, Limit::from(5), Order::Descending)
        .expect("valid pagination");

    assert_eq!(generate_pagination_data(pagination), vec![43, 42]);
}

#[test]
fn test_sorted_select_desc_offset_and_limit() {
    let pagination = Pagination::new("integer_value", 0, Limit::from(2), Order::Descending)
        .expect("valid pagination");

    assert_eq!(generate_pagination_data(pagination), vec![44, 43]);
}

#[test]
fn test_insert_then_select_gives_the_value_back() {
    let database = Database::plain().expect("valid database");
    Test::create_table(&database).expect("valid table");
    let value = Test {
        bool_value: true,
        string_value: String::from("ABC"),
        integer_value: 42,
    };
    let key = value.insert(&database).expect("insert sucessfull");
    let record = Test::select(&database, key).expect("valid sample");
    assert_eq!(record.identifier, key);
    assert_eq!(record.value, value);
    assert_eq!(
        Test::try_select(&database, key.raw_index() + 1).expect("valid query"),
        None
    );
    assert_eq!(Test::select_all(&database).expect("valid query").len(), 1);
    assert!(Test::select(&database, PrimaryKey::from(99)).is_err());
}

#[test]
fn test_select_primary_key_description() {
    let database = Database::plain().expect("valid database");
    Test::create_table(&database).expect("valid table");
    assert_eq!(
        Test::generate_descriptions(&database).expect("valid descriptions").len(),
        0
    );
    let record = Test {
        bool_value: true,
        string_value: String::from("label"),
        integer_value: 1,
    }
    .insert_record(&database)
    .expect("insert sucessfull");
    let descriptions = Test::generate_descriptions(&database).expect("valid descriptions");
    assert_eq!(descriptions.len(), 1);
    assert_eq!(descriptions[0].0, record.identifier);
    assert_eq!(descriptions[0].1, "label");
}

#[test]
fn test_statements_of_a_column_list() {
    let columns = vec![
        Column::new::<Option<String>>("email"),
        Column::new::<PrimaryKey<Test>>("parent"),
    ];
    assert_eq!(columns[0].declaration, "TEXT");
    assert_eq!(columns[1].declaration, "INTEGER NOT NULL");
    assert_eq!(
        create_table_statement("t", &columns, Some("FOREIGN KEY(parent) REFERENCES tests(id)")),
        "CREATE TABLE IF NOT EXISTS t (id INTEGER PRIMARY KEY, email TEXT, parent INTEGER NOT NULL, FOREIGN KEY(parent) REFERENCES tests(id)  )"
    );
    assert_eq!(
        insert_statement("t", &columns),
        "INSERT INTO t (email, parent) VALUES (?, ?)"
    );
    assert_eq!(insert_statement("t", &vec![]), "INSERT INTO t () VALUES ()");
    assert_eq!(
        select_all_statement("t", &columns),
        "SELECT id, email, parent FROM t"
    );
    assert_eq!(select_statement("SELECT id FROM t"), "SELECT id FROM t WHERE id = ?");
    assert_eq!(
        select_name_statement("t", "email"),
        "SELECT id, email FROM t"
    );
    assert_eq!(sortable_columns(&columns), ["id", "id", "parent"]);
    assert_eq!(<bool as DatabaseType>::column_value(), "BOOL NOT NULL");
    assert_eq!(<Vec<u8> as DatabaseType>::column_value(), "BLOB NOT NULL");
}

#[test]
fn test_table_name() {
    assert_eq!(Test::table_name(), "tests");
}

#[test]
fn test_create_table_statement() {
    assert_eq!(
        Test::statement_create_table(),
        "CREATE TABLE IF NOT EXISTS tests (id INTEGER PRIMARY KEY, bool_value BOOL NOT NULL, string_value TEXT NOT NULL, integer_value INTEGER NOT NULL )"
    );
}

#[test]
fn test_insert_statement() {
    assert_eq!(
        Test::statement_insert(),
        "INSERT INTO tests (bool_value, string_value, integer_value) VALUES (?, ?, ?)"
    );
}

#[test]
fn test_select_statement() {
    assert_eq!(
        Test::statement_select(),
        "SELECT id, bool_value, string_value, integer_value FROM tests WHERE id = ?"
    );
}
