use shelby::database::{
    Database, DatabaseEntry, DefaultGenerator, Insertable, PrimaryKey, SelectableByPrimaryKey,
};
use shelby::user::{PasswordHash, User};
use shelby::Date;

#[test]
fn user_test_hash() {
    let username = "Chris";
    let user = User {
        username: String::from(username),
        password_hash: PasswordHash::new("Chris", "test1234"),
        active: true,
        creation_date: Date::today(),
        related_to: None,
    };

    assert_eq!(user.password_hash.matches(username, "test123"), false);
    assert_eq!(user.password_hash.matches(username, "test1234"), true);
}

#[test]
fn mod_test_hash() {
    let username = "Chris";
    let user = User {
        username: String::from(username),
        password_hash: PasswordHash::new("Chris", "test1234"),
        active: true,
        creation_date: Date::today(),
        related_to: None,
    };

    assert_eq!(user.password_hash.matches(username, "test123"), false);
    assert_eq!(user.password_hash.matches(username, "test1234"), true);
}

#[test]
fn user_test_hash_after_insert() {
    let username = "Chris";

    let database = Database::plain().expect("valid database");
    User::create_table(&database).expect("valid table");

    let index = User {
        username: String::from(username),
        password_hash: PasswordHash::new("Chris", "test1234"),
        active: true,
        creation_date: Date::today(),
        related_to: None,
    }
    .insert(&database)
    .expect("Insert sucessful");

    let metadata = User::select(&database, index).expect("valid sample");
    assert_eq!(metadata.identifier, index);
    assert_eq!(metadata.username, username);
    let user = User::select_by_name(&database, username)
        .expect("valid sample")
        .expect("existing value");
    assert_eq!(user.password_hash.matches(username, "test123"), false);
    assert_eq!(user.password_hash.matches(username, "test1234"), true);
}

#[test]
fn mod_test_hash_after_insert() {
    let username = "Chris";

    let database = Database::plain().expect("valid database");
    User::create_table(&database).expect("valid table");

    let _ = User {
        username: String::from(username),
        password_hash: PasswordHash::new(username, "test1234"),
        active: true,
        creation_date: Date::today(),
        related_to: None,
    }
    .insert(&database)
    .expect("Insert sucessful");

    let user = User::select_by_name(&database, username)
        .expect("valid sample")
        .expect("existing value");
    assert_eq!(user.password_hash.matches(username, "test123"), false);
    assert_eq!(user.password_hash.matches(username, "test1234"), true);
}

#[test]
fn user_test_select_by_name() {
    const USERNAME: &'static str = "Chris";
    let database = Database::in_memory().expect("valid database");

    // Create something in the database
    let user_id = {
        let mut user = User::create_default(&database).expect("valid user");
        user.username = String::from(USERNAME);
        user.insert(&database).expect("sucessful insert")
    };

    let found_user = User::select_by_name(&database, USERNAME)
        .expect("select ok")
        .expect("existing record");
    assert_eq!(found_user.identifier, user_id);
}

#[test]
fn mod_test_select_by_name() {
    const USERNAME: &'static str = "Chris";
    let database = Database::in_memory().expect("valid database");

    let user_id = {
        let mut user = User::create_default(&database).expect("valid user");
        user.username = String::from(USERNAME);
        user.insert(&database).expect("sucessful insert")
    };

    let found_user = User::select_by_name(&database, USERNAME)
        .expect("select ok")
        .expect("existing record");
    assert_eq!(found_user.identifier, user_id);
}

#[test]
fn user_test_select_by_name_non_existing() {
    const USERNAME: &'static str = "Chris";
    let database = Database::in_memory().expect("valid database");

    let _ = {
        let mut user = User::create_default(&database).expect("valid user");
        user.username = String::from(USERNAME);
        user.insert(&database).expect("sucessful insert")
    };

    assert_eq!(
        User::select_by_name(&database, "Max").expect("select ok"),
        None
    )
}

#[test]
fn mod_test_select_by_name_non_existing() {
    const USERNAME: &'static str = "Chris";
    let database = Database::in_memory().expect("valid database");

    let _ = {
        let mut user = User::create_default(&database).expect("valid user");
        user.username = String::from(USERNAME);
        user.insert(&database).expect("sucessful insert")
    };

    assert_eq!(
        User::select_by_name(&database, "Max").expect("select ok"),
        None
    )
}

#[test]
fn test_foreign_key_error() {
    let database = Database::in_memory().expect("valid database");
    let user = User {
        related_to: Some(PrimaryKey::from(42)),
        ..User::create_default(&database).expect("valid user")
    };

    assert!(user
        .insert(&database)
        .expect_err("insertion despite invalid foreign key")
        .is_constraint_violation())
}

#[test]
fn test_invalid_hash_is_not_stored() {
    let database = Database::in_memory().expect("valid database");
    let user = User {
        password_hash: PasswordHash::invalid(),
        ..User::create_default(&database).expect("valid user")
    };
    let error = user.insert(&database).expect_err("an invalid hash is refused");
    assert!(!error.is_constraint_violation());
    assert_eq!(error.kind, shelby::database::ErrorKind::Conversion);
    assert!(!PasswordHash::invalid().is_valid());
    assert!(!PasswordHash::invalid().matches("Chris", ""));
    assert!(PasswordHash::new("Chris", "test1234").is_valid());
    assert_ne!(
        PasswordHash::new("Chris", "test1234"),
        PasswordHash::new("Chris2", "test1234")
    );
    assert_eq!(PasswordHash::salt("Ab"), vec![67, 104, 114, 105, 115, 65, 98]);
}
