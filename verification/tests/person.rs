use shelby::database::{Database, DatabaseEntry, Insertable, PrimaryKey};
use shelby::person::{Group, Membership, Person};
use shelby::Date;

fn setup_database() -> (
    Database,
    (PrimaryKey<Person>, PrimaryKey<Person>, PrimaryKey<Person>),
    PrimaryKey<Group>,
) {
    let database = Database::plain().expect("valid database");
    Membership::create_table(&database).expect("valid table");

    let max = Person {
        name: String::from("Max Mustermann"),
        ..Default::default()
    }
    .insert(&database)
    .expect("valid person");

    let mariane = Person {
        name: String::from("Mariane Mustermann"),
        ..Default::default()
    }
    .insert(&database)
    .expect("valid person");

    let jane = Person {
        name: String::from("Jane Doe"),
        ..Default::default()
    }
    .insert(&database)
    .expect("valid person");

    let example = Group {
        description: String::from("Example"),
    }
    .insert(&database)
    .expect("insert sucessfull");

    (database, (max, mariane, jane), example)
}

#[test]
fn person_test_create_table() {
    // This will trigger the create statement.
    setup_database();
}

#[test]
fn test_no_members() {
    let (database, _, group) = setup_database();
    assert_eq!(Membership::find_all_members(&database, group), Ok(vec![]));
}

#[test]
fn test_no_group() {
    let (database, (max, _, _), _) = setup_database();
    assert_eq!(Membership::find_all_memberships(&database, max), Ok(vec![]));
}

#[test]
fn test_membership() {
    let (database, (max, _, _), example) = setup_database();

    let membership = Membership {
        person: max.clone(),
        group: example.clone(),
        updated: Some(Date::today()),
        comment: Some(String::from("Example")),
    };

    membership.insert(&database).expect("Valid insert");

    assert_eq!(
        Membership::find_all_members(&database, example.clone()),
        Ok(vec![membership.clone()])
    );
    assert_eq!(
        Membership::find_all_memberships(&database, max),
        Ok(vec![membership])
    );
}

#[test]
fn test_insert_and_find() {
    let (database, (max, _, _), example) = setup_database();

    let membership = Membership {
        person: max,
        group: example,
        updated: None,
        comment: Some(String::from("Example")),
    };

    membership.insert(&database).expect("Valid insert");

    let memberships_of_group = Membership::find_all_members(&database, example.clone()).unwrap();
    assert_eq!(memberships_of_group.len(), 1);
    assert_eq!(memberships_of_group[0], membership);

    let memberships_of_person = Membership::find_all_memberships(&database, max).unwrap();
    assert_eq!(memberships_of_person.len(), 1);
    assert_eq!(memberships_of_person[0], membership);
}

#[test]
fn test_remove() {
    let (database, (max, _, _), example) = setup_database();

    let membership = Membership {
        person: max,
        group: example,
        updated: None,
        comment: Some(String::from("Example")),
    };

    membership.insert(&database).expect("Valid insert");

    assert_eq!(Membership::remove(max, example, &database), Ok(1));

    assert_eq!(
        Membership::find_all_members(&database, example.clone()),
        Ok(vec![])
    );
    assert_eq!(Membership::find_all_memberships(&database, max), Ok(vec![]));
}

#[test]
fn test_find_all_members_with_no_members() {
    let (database, _, group) = setup_database();
    assert_eq!(Membership::find_all_members(&database, group), Ok(vec![]));
}

#[test]
fn test_find_all_memberships_with_no_group() {
    let (database, (max, _, _), _) = setup_database();
    assert_eq!(Membership::find_all_memberships(&database, max), Ok(vec![]));
}
