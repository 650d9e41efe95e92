use shelby::auth::{AuthenticatedUser, Credentials};
use shelby::database::{
    Database, DatabaseEntry, DatabaseError, ErrorKind, Insertable, PrimaryKey, Record,
};
use shelby::frontend::forms::{prepare_fields, FileMetadata, Metadata};
use shelby::frontend::{
    Container, Field, ForeignKeyStorage, GroupOverview, HiddenValue, InputType, LabelMap, List,
    MembershipOverview,
};
use shelby::document::Document;
use shelby::person::{Group, Membership, Person};
use shelby::user::{PasswordHash, User};
use shelby::{Date, RequestError};

fn person(name: &str) -> Person {
    Person {
        name: String::from(name),
        ..Default::default()
    }
}

#[test]
fn test_cache_loads_a_table_once() {
    let database = Database::plain().expect("valid database");
    Membership::create_table(&database).expect("valid table");
    let max = person("Max").insert(&database).expect("valid person");

    let mut storage: ForeignKeyStorage<LabelMap> = ForeignKeyStorage::from(&database);
    assert_eq!(storage.num_loads(), 0);
    assert_eq!(storage.get(max), None);
    assert_eq!(storage.num_loads(), 0);
    assert!(!storage.is_loaded::<Person>());

    storage.add::<Person>().expect("valid load");
    assert_eq!(storage.num_loads(), 1);
    assert!(storage.is_loaded::<Person>());
    assert_eq!(storage.get(max), Some("Max"));

    // A person who comes later is not seen: the table is not loaded again.
    let jane = person("Jane").insert(&database).expect("valid person");
    storage.add::<Person>().expect("valid load");
    assert_eq!(storage.num_loads(), 1);
    assert_eq!(storage.get(jane), None);
    assert_eq!(storage.get(PrimaryKey::<Group>::from(max.raw_index())), None);

    storage.add::<Group>().expect("valid load");
    assert_eq!(storage.num_loads(), 2);
}

#[test]
fn test_cache_keeps_nothing_of_a_failed_load() {
    let database = Database::plain().expect("valid database");
    let mut storage: ForeignKeyStorage<List> = ForeignKeyStorage::from(&database);
    let error = storage.add::<Person>().expect_err("no such table");
    assert_eq!(error.kind, ErrorKind::Store);
    assert!(!storage.is_loaded::<Person>());
    assert_eq!(storage.num_loads(), 1);
}

#[test]
fn test_containers() {
    let raw = vec![
        (PrimaryKey::<Person>::from(2), String::from("b")),
        (PrimaryKey::<Person>::from(1), String::from("a")),
        (PrimaryKey::<Person>::from(2), String::from("c")),
    ];
    let list = <List as Container>::from(raw.clone());
    assert_eq!(
        list,
        List(vec![
            (String::from("/persons/2"), String::from("b")),
            (String::from("/persons/1"), String::from("a")),
            (String::from("/persons/2"), String::from("c")),
        ])
    );
    let map = <LabelMap as Container>::from(raw);
    assert_eq!(map.get(2), Some("c"));
    assert_eq!(map.get(1), Some("a"));
    assert_eq!(map.get(3), None);
    assert_eq!(
        map.to_list("persons"),
        List(vec![
            (String::from("/persons/2"), String::from("c")),
            (String::from("/persons/1"), String::from("a")),
        ])
    );
}

#[test]
fn test_group_overview() {
    let database = Database::plain().expect("valid database");
    Membership::create_table(&database).expect("valid table");
    let max = person("Max").insert(&database).expect("valid person");
    let jane = person("Jane").insert(&database).expect("valid person");
    let group = Group {
        description: String::from("Example"),
    }
    .insert_record(&database)
    .expect("valid group");
    for (person, comment) in [(max, Some(String::from("chair"))), (jane, None)] {
        Membership {
            person,
            group: group.identifier,
            updated: Some(Date::today()),
            comment,
        }
        .insert(&database)
        .expect("valid membership");
    }
    let overview = GroupOverview::load(&database, group).expect("valid overview");
    assert_eq!(overview.title(), "Example");
    assert_eq!(
        overview.rows(),
        vec![
            MembershipOverview {
                person: String::from("Max"),
                membership_path: String::from("/persons/1"),
                comment: String::from("chair"),
            },
            MembershipOverview {
                person: String::from("Jane"),
                membership_path: String::from("/persons/2"),
                comment: String::new(),
            },
        ]
    );
    let persons = overview.into_persons();
    assert!(persons.is_loaded::<Person>());
    assert_eq!(persons.num_loads(), 1);
}

#[test]
fn test_hidden_value() {
    let user = AuthenticatedUser {
        user: PrimaryKey::from(3),
    };
    let mut hidden = HiddenValue::new(|user: &AuthenticatedUser| user.user.to_string());
    assert_eq!(hidden.value, None);
    hidden.set_value(&user);
    assert_eq!(hidden.value, Some(String::from("/users/3")));
    let mut copy = hidden.clone();
    assert_eq!(copy.value, None);
    copy.set_value(&user);
    assert_eq!(copy.value, hidden.value);
}

type Generator = fn(&AuthenticatedUser) -> String;
type Loader = fn(&mut ForeignKeyStorage<'_, List>) -> Result<(), DatabaseError>;

#[test]
fn test_form_fields() {
    let database = Database::plain().expect("valid database");
    Membership::create_table(&database).expect("valid table");
    person("Max").insert(&database).expect("valid person");
    let label = Metadata {
        label: "Person",
        placeholder: None,
        required: true,
    };
    let mut fields: Vec<Field<Generator, Loader>> = vec![
        Field::new("name", InputType::Text(label)),
        Field::new(
            "person",
            InputType::new_foreign(label, |storage| storage.add::<Person>(), "persons"),
        ),
        Field::new(
            "missing",
            InputType::new_foreign(label, |storage| storage.add::<Document>(), "documents"),
        ),
        Field::new("by", InputType::new_hidden(|user| user.user.to_string())),
        Field::new(
            "file",
            InputType::File(FileMetadata {
                label: "File",
                extensions: &[".pdf"],
                multiple: false,
            }),
        ),
    ];
    let kinds: Vec<&str> = fields.iter().map(|f| f.input_type.html_value()).collect();
    assert_eq!(kinds, ["text", "select", "select", "hidden", "file"]);
    let user = AuthenticatedUser {
        user: PrimaryKey::from(3),
    };
    let mut storage: ForeignKeyStorage<List> = ForeignKeyStorage::from(&database);
    prepare_fields(&mut fields, &user, &mut storage);
    match &fields[3].input_type {
        InputType::Hidden(hidden) => assert_eq!(hidden.value, Some(String::from("/users/3"))),
        _ => panic!("a hidden field"),
    }
    match &fields[1].input_type {
        InputType::ForeignKey(foreign) => assert_eq!(foreign.list_name(), "persons"),
        _ => panic!("a field for a foreign key"),
    }
    assert!(fields[0].attributes.is_empty());
    assert_eq!(
        storage.snapshot(),
        vec![(
            String::from("persons"),
            vec![(String::from("/persons/1"), String::from("Max"))]
        )]
    );
}

#[test]
fn test_login_decision() {
    let record = || Record {
        identifier: PrimaryKey::<User>::from(7),
        value: User {
            username: String::from("Chris"),
            password_hash: PasswordHash::new("Chris", "test1234"),
            active: true,
            creation_date: Date::today(),
            related_to: None,
        },
    };
    let credentials = Credentials {
        user: String::from("Chris"),
        password: String::from("test1234"),
    };
    assert!(credentials.matches(&record()));
    assert_eq!(credentials.login(Ok(Some(record()))), Ok(PrimaryKey::from(7)));
    assert_eq!(credentials.login(Ok(None)), Err(RequestError::NotFound));
    let wrong = Credentials {
        user: String::from("Chris"),
        password: String::from("WRONG_PASSWORD"),
    };
    assert!(!wrong.matches(&record()));
    assert_eq!(wrong.login(Ok(Some(record()))), Err(RequestError::WrongPassword));
    let other = Credentials {
        user: String::from("Max"),
        password: String::from("test1234"),
    };
    assert_eq!(other.login(Ok(Some(record()))), Err(RequestError::WrongPassword));
    let error = DatabaseError::internal(ErrorKind::Store, "down");
    assert_eq!(
        credentials.login(Err(error.clone())),
        Err(RequestError::DatabaseError(error))
    );
}

#[test]
fn test_request_errors() {
    let violated = DatabaseError {
        kind: ErrorKind::Store,
        code: Some(787),
        message: String::from("FOREIGN KEY constraint failed"),
    };
    assert_eq!(RequestError::from(violated), RequestError::ConstraintViolation);
    let other = DatabaseError {
        kind: ErrorKind::Store,
        code: Some(1),
        message: String::from("no such table"),
    };
    let error = RequestError::from(other.clone());
    assert_eq!(error, RequestError::DatabaseError(other));
    assert_eq!(error.status(), 500);
    assert_eq!(error.to_string(), "database error: SQL error: no such table");
    assert_eq!(RequestError::ConstraintViolation.status(), 400);
    assert_eq!(RequestError::ConstraintViolation.to_string(), "invalid value");
    assert_eq!(RequestError::NotFound.status(), 404);
    assert_eq!(RequestError::NotFound.to_string(), "element not found");
    assert_eq!(RequestError::WrongPassword.status(), 401);
    assert_eq!(RequestError::WrongPassword.to_string(), "invalid password");
}

#[test]
fn test_cache_as_lists_holds_every_label_once() {
    let database = Database::plain().expect("valid database");
    Membership::create_table(&database).expect("valid table");
    let max = person("Max").insert(&database).expect("valid person");
    let jane = person("Jane").insert(&database).expect("valid person");

    let mut storage: ForeignKeyStorage<LabelMap> = ForeignKeyStorage::from(&database);
    storage.add::<Person>().expect("valid load");
    storage.add::<Group>().expect("valid load");
    storage.add::<Person>().expect("valid load");
    assert_eq!(storage.num_loads(), 2);

    let lists = storage.into_lists();
    assert_eq!(lists.num_loads(), 2);
    assert!(lists.is_loaded::<Person>());
    assert!(lists.is_loaded::<Group>());
    assert_eq!(
        lists.snapshot(),
        vec![
            (
                String::from("persons"),
                vec![
                    (format!("/persons/{}", max.raw_index()), String::from("Max")),
                    (format!("/persons/{}", jane.raw_index()), String::from("Jane")),
                ]
            ),
            (String::from("groups"), vec![]),
        ]
    );
}
