//! The overview of a group: its members with their labels.
use vstd::prelude::*;

use super::util::{loaded_from, ForeignKeyStorage, LabelMap};
use crate::database::error::{DatabaseError, ErrorKind};
use crate::database::primary_key::{key_text, PrimaryKey};
use crate::database::record::Record;
use crate::database::sqlite::Database;
use crate::database::traits::DatabaseEntry;
use crate::person::{Group, Membership, Person};

verus! {

/// One line of the overview of a group.
#[derive(Debug, Clone, PartialEq, Eq)]
pub struct MembershipOverview {
    /// The label of the person, or nothing where the cache has none.
    pub person: String,
    /// The text of the person's key.
    pub membership_path: String,
    /// The comment of the membership.
    pub comment: String,
}

/// Whether `elements` are the members of the memberships with their
/// comments: for each membership, in the same order, the person and the
/// comment, or an empty comment where there is none.
pub open spec fn members_are(
    memberships: Seq<Membership>,
    elements: Seq<(PrimaryKey<Person>, String)>,
) -> bool {
    &&& elements.len() == memberships.len()
    &&& forall|i: int|
        0 <= i < memberships.len() ==> (#[trigger] elements[i]).0 == memberships[i].person
            && elements[i].1@ == (match memberships[i].comment {
            Some(text) => text@,
            None => Seq::<char>::empty(),
        })
}

/// The members of a membership list with their comments.
pub fn members_of(memberships: Vec<Membership>) -> (elements: Vec<(PrimaryKey<Person>, String)>)
    ensures
        members_are(memberships@, elements@),
{
    let mut elements: Vec<(PrimaryKey<Person>, String)> = Vec::new();
    let mut i: usize = 0;
    while i < memberships.len()
        invariant
            i <= memberships.len(),
            elements.len() == i,
            forall|k: int|
                0 <= k < i ==> (#[trigger] elements[k]).0 == memberships[k].person
                    && elements[k].1@ == (match memberships[k].comment {
                    Some(text) => text@,
                    None => Seq::<char>::empty(),
                }),
        decreases memberships.len() - i,
    {
        let comment = match &memberships[i].comment {
            Some(text) => text.clone(),
            None => String::new(),
        };
        elements.push((memberships[i].person, comment));
        i += 1;
    }
    elements
}

/// What the page of a group shows: the description of the group and its
/// members.
pub struct GroupOverview<'a> {
    foreign_keys: ForeignKeyStorage<'a, LabelMap>,
    description: String,
    elements: Vec<(PrimaryKey<Person>, String)>,
}

impl<'a> GroupOverview<'a> {
    /// The description of the group.
    pub closed spec fn description(&self) -> Seq<char> {
        self.description@
    }

    /// The members with the comments of their memberships.
    pub closed spec fn elements(&self) -> Seq<(PrimaryKey<Person>, String)> {
        self.elements@
    }

    /// The cache of the labels.
    pub closed spec fn foreign_keys(&self) -> ForeignKeyStorage<'a, LabelMap> {
        self.foreign_keys
    }

    /// Load the members of a group and the labels of all persons: the
    /// members are those of the memberships that are found for the group,
    /// and then the labels are loaded into a new cache. The first failure
    /// is the failure of the whole.
    pub fn load(database: &'a Database, group: Record<Group>) -> (overview: Result<
        Self,
        DatabaseError,
    >)
        ensures
            exists|found: Result<Vec<Membership>, DatabaseError>|
                {
                    &&& #[trigger] call_ensures(
                        Membership::find_all_members,
                        (database, group.identifier),
                        found,
                    )
                    &&& match found {
                        Err(error) => overview == Err::<Self, DatabaseError>(error),
                        Ok(memberships) => exists|
                            storage: &mut ForeignKeyStorage<'a, LabelMap>,
                            added: Result<(), DatabaseError>,
                        |
                            {
                                &&& #[trigger] call_ensures(
                                    ForeignKeyStorage::<'a, LabelMap>::add::<Person>,
                                    (storage,),
                                    added,
                                )
                                &&& storage.database() == database
                                &&& storage.tables().len() == 0
                                &&& storage.loads() == 0
                                &&& match added {
                                    Err(error) => overview == Err::<Self, DatabaseError>(error),
                                    Ok(()) => {
                                        &&& overview is Ok
                                        &&& overview->Ok_0.description()
                                            == group.value.description@
                                        &&& overview->Ok_0.foreign_keys() == *final(storage)
                                        &&& members_are(memberships@, overview->Ok_0.elements())
                                    },
                                }
                            },
                    }
                },
            overview is Ok ==> {
                &&& overview->Ok_0.foreign_keys().tables() == seq![Person::table_name_spec()]
                &&& overview->Ok_0.foreign_keys().containers().len() == 1
                &&& loaded_from::<Person, LabelMap>(overview->Ok_0.foreign_keys().containers()[0])
            },
            overview is Err ==> overview->Err_0.kind == ErrorKind::Store,
    {
        let found = Membership::find_all_members(database, group.identifier);
        let ghost members_found = found;
        assert(call_ensures(
            Membership::find_all_members,
            (database, group.identifier),
            members_found,
        ));
        let memberships = match found {
            Ok(memberships) => memberships,
            Err(error) => {
                return Err(error);
            },
        };
        let elements = members_of(memberships);
        let description = group.into_inner().description;
        let mut foreign_keys = ForeignKeyStorage::from(database);
        proof {
            foreign_keys.lemma_one_container_each();
        }
        match foreign_keys.add::<Person>() {
            Ok(()) => {},
            Err(error) => {
                return Err(error);
            },
        }
        assert(foreign_keys.tables() =~= seq![Person::table_name_spec()]);
        assert(foreign_keys.containers().last() == foreign_keys.containers()[0]);
        Ok(GroupOverview { foreign_keys, description, elements })
    }

    /// The description of the group.
    pub fn title(&self) -> (description: &str)
        ensures
            description@ == self.description(),
    {
        self.description.as_str()
    }

    /// The lines of the overview: for each member the label of the person,
    /// empty where the cache has none, the text of the person's key and the
    /// comment.
    pub fn rows(&self) -> (rows: Vec<MembershipOverview>)
        ensures
            rows.len() == self.elements().len(),
            forall|i: int|
                0 <= i < rows.len() ==> {
                    &&& (#[trigger] rows[i]).person@ == (match self.foreign_keys().label_of(
                        Person::table_name_spec(),
                        self.elements()[i].0.0,
                    ) {
                        Some(label) => label,
                        None => Seq::<char>::empty(),
                    })
                    &&& rows[i].membership_path@ == key_text(
                        Person::table_name_spec(),
                        self.elements()[i].0.0,
                    )
                    &&& rows[i].comment@ == self.elements()[i].1@
                },
    {
        let mut rows: Vec<MembershipOverview> = Vec::new();
        let mut i: usize = 0;
        while i < self.elements.len()
            invariant
                i <= self.elements.len(),
                rows.len() == i,
                forall|k: int|
                    0 <= k < i ==> {
                        &&& (#[trigger] rows[k]).person@ == (match self.foreign_keys.label_of(
                            Person::table_name_spec(),
                            self.elements@[k].0.0,
                        ) {
                            Some(label) => label,
                            None => Seq::<char>::empty(),
                        })
                        &&& rows[k].membership_path@ == key_text(
                            Person::table_name_spec(),
                            self.elements@[k].0.0,
                        )
                        &&& rows[k].comment@ == self.elements@[k].1@
                    },
            decreases self.elements.len() - i,
        {
            let key = self.elements[i].0;
            let person = match self.foreign_keys.get(key) {
                Some(label) => label.to_owned(),
                None => String::new(),
            };
            rows.push(
                MembershipOverview {
                    person,
                    membership_path: key.to_string(),
                    comment: self.elements[i].1.clone(),
                },
            );
            i += 1;
        }
        rows
    }

    /// Hand out the cache of the labels, with every table as a list.
    pub fn into_persons(self) -> (persons: ForeignKeyStorage<'a, super::util::List>)
        ensures
            persons.tables() == self.foreign_keys().tables(),
    {
        self.foreign_keys.into_lists()
    }
}

} // verus!
