use shelby::accounting::{Account, AccountSummary, Amount, Category, CostCenter, Entry};
use shelby::database::dependency::{run_statements, Dependency};
use shelby::database::{
    Database, DatabaseEntry, DatabaseError, DefaultGenerator, ErrorKind, Insertable,
    Referenceable, SelectableByPrimaryKey, SqlValue,
};
use shelby::document::Document;
use shelby::person::{Membership, Person};
use shelby::user::User;

#[test]
fn database_test_migrations() {
    assert!(Database::validate(&Database::get_migrations()));
}

#[test]
fn sqlite_test_migrations() {
    assert!(Database::validate(&Database::get_migrations()));
}

#[test]
fn document_test_availability_in_default_migrations() {
    let database = Database::in_memory().expect("valid database");
    Document::create_default(&database)
        .expect("valid document")
        .insert(&database)
        .expect("insert sucessfull");
}

#[test]
fn test_loading() {
    let database = Database::in_memory().expect("valid database");

    let category_name = String::from("Category 1");
    let category_1 = Category {
        description: category_name.clone(),
    }
    .insert(&database)
    .expect("insert category failed");

    let evidence = Document::create_default(&database)
        .expect("valid document")
        .insert(&database)
        .expect("inserting document failed");

    // Add the cost centers
    let [(cost_center_1_name, cost_center_1), (cost_center_2_name, cost_center_2)] =
        ["Cost Center 1", "Cost Center 2"].map(|name| {
            let description = String::from(name);
            let center = CostCenter {
                description: description.clone(),
            }
            .insert(&database)
            .expect("insert cost center failed");

            (description, center)
        });

    // Add accounts
    let [(account_1_name, account_1), (account_2_name, account_2)] = ["Account 1", "Account 2"]
        .map(|name| {
            let description = String::from(name);
            let account = Account {
                code: 1,
                category: category_1,
                description: description.clone(),
            }
            .insert(&database)
            .expect("insert account failed");

            (description, account)
        });

    // Add the entries
    for (account, amount) in [(account_1, 100), (account_1, 200), (account_2, 140)] {
        Entry {
            evidence,
            account,
            cost_center: cost_center_1,
            amount: Amount::from_integer(amount),
            description: String::new(),
        }
        .insert(&database)
        .expect("insert entry failed");
    }

    for (account, amount) in [(account_1, 50), (account_1, 80), (account_2, 300)] {
        Entry {
            evidence,
            account,
            cost_center: cost_center_2,
            amount: Amount::from_integer(amount),
            description: String::new(),
        }
        .insert(&database)
        .expect("insert entry failed");
    }

    let summaries = AccountSummary::load_all(&database).expect("loading summary failed");
    assert_eq!(
        summaries.as_slice(),
        &[
            AccountSummary {
                account: account_1_name.clone(),
                cost_center: cost_center_1_name.clone(),
                amount: Amount::from_integer(300),
                category: category_name.clone()
            },
            AccountSummary {
                account: account_2_name.clone(),
                cost_center: cost_center_1_name.clone(),
                amount: Amount::from_integer(140),
                category: category_name.clone()
            },
            AccountSummary {
                account: account_1_name.clone(),
                cost_center: cost_center_2_name.clone(),
                amount: Amount::from_integer(130),
                category: category_name.clone()
            },
            AccountSummary {
                account: account_2_name.clone(),
                cost_center: cost_center_2_name.clone(),
                amount: Amount::from_integer(300),
                category: category_name.clone()
            }
        ]
    );
}

#[test]
fn test_schema_of_a_chain_of_three_tables() {
    // entries need accounts, which need categories
    let database = Database::plain().expect("valid database");
    Entry::create_table(&database).expect("valid tables");
    Entry::create_table(&database).expect("a second creation changes nothing");
    let order = Account::dependency().creation_order();
    assert_eq!(
        order,
        vec![Category::statement_create_table(), Account::statement_create_table()]
    );
    let order = Entry::dependency().creation_order();
    assert_eq!(order.last(), Some(&Entry::statement_create_table()));
    let position = |statement: String| order.iter().position(|s| *s == statement).unwrap();
    assert!(position(Category::statement_create_table()) < position(Account::statement_create_table()));
    assert!(position(Person::statement_create_table()) < position(User::statement_create_table()));
    assert!(position(User::statement_create_table()) < position(Document::statement_create_table()));
    assert!(position(Account::statement_create_table()) < position(Entry::statement_create_table()));
    assert_eq!(Dependency::Unit.creation_order(), Vec::<String>::new());
    let entry = Entry::create_default(&database).expect("valid entry");
    entry.insert(&database).expect("every table exists");
    assert_eq!(Membership::dependency().creation_order().len(), 3);
}

#[test]
fn test_statement_errors_are_store_errors() {
    let database = Database::plain().expect("valid database");
    let error = database
        .execute("NO STATEMENT", &vec![])
        .expect_err("no statement");
    assert_eq!(error.kind, ErrorKind::Store);
    assert!(!error.is_constraint_violation());
    assert!(error.to_string().starts_with("SQL error: "));
    let unique = DatabaseError {
        kind: ErrorKind::Store,
        code: Some(2067),
        message: String::new(),
    };
    assert!(unique.is_constraint_violation());
    let foreign_key = DatabaseError { code: Some(787), ..unique.clone() };
    assert!(foreign_key.is_constraint_violation());
    let busy = DatabaseError { code: Some(5), ..unique.clone() };
    assert!(!busy.is_constraint_violation());
    let internal = DatabaseError::internal(ErrorKind::Conversion, "text");
    assert_eq!(internal.code, None);
    assert_eq!(internal.to_string(), "SQL error: text");
    let other = DatabaseError { kind: ErrorKind::NotFound, ..unique };
    assert!(!other.is_constraint_violation());
}

#[test]
fn test_queries_give_rows_of_plain_values() {
    let database = Database::plain().expect("valid database");
    database
        .execute("CREATE TABLE t (a INTEGER, b TEXT, c BLOB, d REAL)", &vec![])
        .expect("valid table");
    let id = database
        .insert(
            "INSERT INTO t (a, b, c, d) VALUES (?, ?, ?, 1.5)",
            &vec![
                SqlValue::Integer(7),
                SqlValue::Text(String::from("x")),
                SqlValue::Blob(vec![1, 2]),
            ],
        )
        .expect("valid insert");
    assert_eq!(id, 1);
    database
        .insert("INSERT INTO t (a) VALUES (?)", &vec![SqlValue::Null])
        .expect("valid insert");
    let rows = database
        .query("SELECT a, b, c, d FROM t ORDER BY rowid", &vec![])
        .expect("valid query");
    assert_eq!(
        rows,
        vec![
            Some(vec![
                SqlValue::Integer(7),
                SqlValue::Text(String::from("x")),
                SqlValue::Blob(vec![1, 2]),
                SqlValue::Real
            ]),
            Some(vec![SqlValue::Null, SqlValue::Null, SqlValue::Null, SqlValue::Null]),
        ]
    );
    let numbers = database
        .query_all("SELECT a FROM t ORDER BY rowid", &vec![], |row: &Vec<SqlValue>| match &row[0] {
            SqlValue::Integer(i) => Some(*i),
            _ => None,
        })
        .expect("valid query");
    assert_eq!(numbers, vec![7]);
    assert_eq!(
        database.open_blob("t", "c", 1).expect("valid blob"),
        vec![1, 2]
    );
    assert!(database.open_blob("t", "c", 9).is_err());
}

#[test]
fn test_document_is_read_back() {
    let database = Database::in_memory().expect("valid database");
    let mut document = Document::create_default(&database).expect("valid document");
    document.document = vec![42u8, 41, 40];
    document.description = String::from("Invoice");
    let key = document.insert(&database).expect("insert sucessfull");
    assert_eq!(
        Document::load_into_memory(&database, key).expect("valid blob"),
        vec![42u8, 41, 40]
    );
    let metadata = Document::select(&database, key).expect("valid sample");
    assert_eq!(metadata.identifier, key);
    assert_eq!(metadata.description, "Invoice");
    assert_eq!(metadata.processed, document.processed);
    let labels = Document::generate_descriptions(&database).expect("valid labels");
    assert_eq!(
        labels,
        vec![(key, format!("{} Invoice", document.processed.to_string()))]
    );
}

#[test]
fn test_queries_for_a_single_row() {
    let database = Database::plain().expect("valid database");
    database
        .execute("CREATE TABLE t (a INTEGER, b TEXT)", &vec![])
        .expect("valid table");
    let number = |row: &Vec<SqlValue>| match &row[0] {
        SqlValue::Integer(i) => Some(*i),
        _ => None,
    };
    assert_eq!(
        database.query_optional("SELECT a FROM t", &vec![], number),
        Ok(None)
    );
    let error = database
        .query_one("SELECT a FROM t", &vec![], number)
        .expect_err("no row");
    assert_eq!(error.kind, ErrorKind::NotFound);
    database
        .execute(
            "INSERT INTO t (a, b) VALUES (?, ?), (?, ?)",
            &vec![
                SqlValue::Integer(4),
                SqlValue::Null,
                SqlValue::Integer(5),
                SqlValue::Text(String::from("x")),
            ],
        )
        .expect("valid insert");
    assert_eq!(
        database.query_optional("SELECT a FROM t ORDER BY a", &vec![], number),
        Ok(Some(4))
    );
    assert_eq!(
        database.query_one("SELECT a FROM t WHERE a = ?", &vec![SqlValue::Integer(5)], number),
        Ok(5)
    );
    let error = database
        .query_one("SELECT b FROM t ORDER BY a", &vec![], number)
        .expect_err("a text is no number");
    assert_eq!(error.kind, ErrorKind::Conversion);
    let error = database
        .query_optional("SELECT b FROM t ORDER BY a", &vec![], number)
        .expect_err("a text is no number");
    assert_eq!(error.kind, ErrorKind::Conversion);
    assert_eq!(
        database.query_all("SELECT b FROM t ORDER BY a", &vec![], |row: &Vec<SqlValue>| {
            match &row[0] {
                SqlValue::Text(text) => Some(text.clone()),
                _ => None,
            }
        }),
        Ok(vec![String::from("x")])
    );
    let error = database
        .query_one("SELECT nothing", &vec![], number)
        .expect_err("no such column");
    assert_eq!(error.kind, ErrorKind::Store);
}

#[test]
fn test_statements_run_until_the_first_failure() {
    let database = Database::plain().expect("valid database");
    let statements = vec![
        String::from("CREATE TABLE a (x INTEGER)"),
        String::from("CREATE TABLE a (x INTEGER)"),
        String::from("CREATE TABLE b (x INTEGER)"),
    ];
    let error = run_statements(&statements, |statement: &String| {
        database.execute(statement, &vec![])
    })
    .expect_err("the table exists");
    assert_eq!(error.kind, ErrorKind::Store);
    assert!(database.query("SELECT x FROM a", &vec![]).is_ok());
    assert!(database.query("SELECT x FROM b", &vec![]).is_err());
    assert_eq!(
        run_statements(&vec![], |statement: &String| database.execute(statement, &vec![])),
        Ok(())
    );
}

#[test]
fn test_opening_prepares_the_store() {
    let database = Database::in_memory().expect("valid database");
    let enforced = database
        .query_one("PRAGMA foreign_keys", &vec![], |row: &Vec<SqlValue>| Some(row[0].clone()))
        .expect("valid pragma");
    assert_eq!(enforced, SqlValue::Integer(1));
    // every table of the history exists, and none is created twice
    for table in [
        "persons", "groups", "memberships", "users", "documents", "accounts", "categories",
        "cost_centers", "entries",
    ] {
        let found = database
            .query(
                "SELECT name FROM sqlite_master WHERE type = 'table' AND name = ?",
                &vec![SqlValue::Text(String::from(table))],
            )
            .expect("valid query");
        assert_eq!(found.len(), 1);
    }
    let steps = Database::get_migrations();
    assert_eq!(steps.len(), 2);
    assert!(steps[0].up.starts_with("CREATE TABLE IF NOT EXISTS persons (id INTEGER PRIMARY KEY"));
    assert!(steps[0].up.ends_with("REFERENCES persons(id)  ); "));
    assert_eq!(
        steps[0].down,
        "DROP TABLE persons; DROP TABLE groups; DROP TABLE memberships; DROP TABLE users; "
    );
    assert_eq!(
        steps[1].down,
        "DROP TABLE accounts; DROP TABLE categories; DROP TABLE cost_centers; DROP TABLE entries;"
    );
    assert!(!Database::validate(&vec![]));
    let error = match Database::in_memory_with(&vec![]) {
        Ok(_) => panic!("a history without steps"),
        Err(error) => error,
    };
    assert_eq!(error.kind, ErrorKind::Migration);
}

#[test]
fn test_a_real_number_is_not_bound() {
    let database = Database::plain().expect("valid database");
    database
        .execute("CREATE TABLE t (a INTEGER)", &vec![])
        .expect("valid table");
    let params = vec![SqlValue::Integer(1), SqlValue::Real];
    for error in [
        database
            .execute("INSERT INTO t (a) VALUES (?)", &params)
            .expect_err("refused"),
        database
            .insert("INSERT INTO t (a) VALUES (?)", &params)
            .expect_err("refused"),
        database
            .query("SELECT a FROM t WHERE a = ?", &params)
            .map(|_| 0)
            .expect_err("refused"),
    ] {
        assert_eq!(error.kind, ErrorKind::Conversion);
        assert_eq!(error.code, None);
        assert_eq!(
            error.message,
            "a real number cannot be bound to a statement"
        );
    }
    // Nothing reached the store.
    let rows = database
        .query("SELECT a FROM t", &vec![])
        .expect("valid query");
    assert!(rows.is_empty());
}

#[test]
fn test_insert_gives_the_row_id_of_the_store() {
    let database = Database::in_memory().expect("valid database");
    let first = Person::default().insert(&database).expect("valid person");
    let second = Person::default().insert(&database).expect("valid person");
    assert_eq!(first.raw_index(), 1);
    assert_eq!(second.raw_index(), 2);
    let record = Person::default()
        .insert_record(&database)
        .expect("valid person");
    assert_eq!(record.identifier.raw_index(), 3);
    assert_eq!(record.value, Person::default());
    let rows = database
        .query("SELECT id FROM persons ORDER BY id", &vec![])
        .expect("valid query");
    assert_eq!(
        rows,
        vec![
            Some(vec![SqlValue::Integer(1)]),
            Some(vec![SqlValue::Integer(2)]),
            Some(vec![SqlValue::Integer(3)]),
        ]
    );
}
