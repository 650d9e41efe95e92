//! The history of the schema: the steps that bring a store up to date.
use vstd::prelude::*;

use crate::accounting::{Account, Category, CostCenter, Entry};
use crate::database::error::{DatabaseError, ErrorKind};
use crate::database::sqlite::{Database, Migration};
use crate::database::traits::DatabaseEntry;
use crate::document::Document;
use crate::person::{Group, Membership, Person};
use crate::text::{from_chars, push_str};
use crate::user::User;

verus! {

/// The script of the first step: the tables of persons, groups,
/// memberships, users and documents, each statement closed by `; `.
pub open spec fn first_up() -> Seq<char> {
    Person::statement_create_table_spec() + "; "@ + Group::statement_create_table_spec() + "; "@
        + Membership::statement_create_table_spec() + "; "@ + User::statement_create_table_spec()
        + "; "@ + Document::statement_create_table_spec() + "; "@
}

/// The script that takes the first step back.
pub open spec fn first_down() -> Seq<char> {
    "DROP TABLE "@ + Person::table_name_spec() + "; DROP TABLE "@ + Group::table_name_spec()
        + "; DROP TABLE "@ + Membership::table_name_spec() + "; DROP TABLE "@
        + User::table_name_spec() + "; "@
}

/// The script of the second step: the tables of accounts, categories, cost
/// centers and entries, each statement closed by `; `.
pub open spec fn second_up() -> Seq<char> {
    Account::statement_create_table_spec() + "; "@ + Category::statement_create_table_spec()
        + "; "@ + CostCenter::statement_create_table_spec() + "; "@
        + Entry::statement_create_table_spec() + "; "@
}

/// The script that takes the second step back.
pub open spec fn second_down() -> Seq<char> {
    "DROP TABLE "@ + Account::table_name_spec() + "; DROP TABLE "@ + Category::table_name_spec()
        + "; DROP TABLE "@ + CostCenter::table_name_spec() + "; DROP TABLE "@
        + Entry::table_name_spec() + ";"@
}

/// Whether `steps` are the steps of the schema's history, in the order in
/// which they are applied.
pub open spec fn is_history(steps: Seq<Migration>) -> bool {
    &&& steps.len() == 2
    &&& steps[0].up@ == first_up()
    &&& steps[0].down@ == first_down()
    &&& steps[1].up@ == second_up()
    &&& steps[1].down@ == second_down()
}

/// The steps of the schema's history, in the order in which they are
/// applied.
pub fn get_migrations() -> (steps: Vec<Migration>)
    ensures
        is_history(steps@),
        steps.len() == 2,
        steps[0].up@ == first_up(),
        steps[0].down@ == first_down(),
        steps[1].up@ == second_up(),
        steps[1].down@ == second_down(),
{
    let mut up: Vec<char> = Vec::new();
    push_str(&mut up, Person::statement_create_table().as_str());
    push_str(&mut up, "; ");
    push_str(&mut up, Group::statement_create_table().as_str());
    push_str(&mut up, "; ");
    push_str(&mut up, Membership::statement_create_table().as_str());
    push_str(&mut up, "; ");
    push_str(&mut up, User::statement_create_table().as_str());
    push_str(&mut up, "; ");
    push_str(&mut up, Document::statement_create_table().as_str());
    push_str(&mut up, "; ");
    let mut down: Vec<char> = Vec::new();
    push_str(&mut down, "DROP TABLE ");
    push_str(&mut down, Person::table_name());
    push_str(&mut down, "; DROP TABLE ");
    push_str(&mut down, Group::table_name());
    push_str(&mut down, "; DROP TABLE ");
    push_str(&mut down, Membership::table_name());
    push_str(&mut down, "; DROP TABLE ");
    push_str(&mut down, User::table_name());
    push_str(&mut down, "; ");
    let first = Migration { up: from_chars(&up), down: from_chars(&down) };
    let mut up: Vec<char> = Vec::new();
    push_str(&mut up, Account::statement_create_table().as_str());
    push_str(&mut up, "; ");
    push_str(&mut up, Category::statement_create_table().as_str());
    push_str(&mut up, "; ");
    push_str(&mut up, CostCenter::statement_create_table().as_str());
    push_str(&mut up, "; ");
    push_str(&mut up, Entry::statement_create_table().as_str());
    push_str(&mut up, "; ");
    let mut down: Vec<char> = Vec::new();
    push_str(&mut down, "DROP TABLE ");
    push_str(&mut down, Account::table_name());
    push_str(&mut down, "; DROP TABLE ");
    push_str(&mut down, Category::table_name());
    push_str(&mut down, "; DROP TABLE ");
    push_str(&mut down, CostCenter::table_name());
    push_str(&mut down, "; DROP TABLE ");
    push_str(&mut down, Entry::table_name());
    push_str(&mut down, ";");
    let second = Migration { up: from_chars(&up), down: from_chars(&down) };
    let mut steps: Vec<Migration> = Vec::new();
    steps.push(first);
    steps.push(second);
    steps
}

impl Database {
    /// Open the database in memory and bring its schema up to date: what
    /// [`Database::in_memory_with`] gives for the steps of the schema's
    /// history.
    pub fn in_memory() -> (database: Result<Self, DatabaseError>)
        ensures
            exists|steps: &Vec<Migration>|
                is_history(steps@) && #[trigger] call_ensures(
                    Database::in_memory_with,
                    (steps,),
                    database,
                ),
            database is Err ==> database->Err_0.kind == ErrorKind::Store || database->Err_0.kind
                == ErrorKind::Migration,
    {
        let steps = get_migrations();
        let database = Database::in_memory_with(&steps);
        assert(call_ensures(Database::in_memory_with, (&steps,), database));
        database
    }

    /// Open the database in a file, or create the file, and bring its
    /// schema up to date: what [`Database::open_with`] gives for the path
    /// and the steps of the schema's history.
    pub fn open(path: &str) -> (database: Result<Self, DatabaseError>)
        ensures
            exists|steps: &Vec<Migration>|
                is_history(steps@) && #[trigger] call_ensures(
                    Database::open_with,
                    (path, steps),
                    database,
                ),
            database is Err ==> database->Err_0.kind == ErrorKind::Store || database->Err_0.kind
                == ErrorKind::Migration,
    {
        let steps = get_migrations();
        let database = Database::open_with(path, &steps);
        assert(call_ensures(Database::open_with, (path, &steps), database));
        database
    }

    /// The steps of the schema's history.
    pub fn get_migrations() -> (steps: Vec<Migration>)
        ensures
            steps.len() == 2,
            steps[0].up@ == first_up(),
            steps[0].down@ == first_down(),
            steps[1].up@ == second_up(),
            steps[1].down@ == second_down(),
    {
        get_migrations()
    }
}

} // verus!
