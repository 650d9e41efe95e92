//! What is sent to the application as a form, and how it becomes a value.
use vstd::prelude::*;

use crate::database::primary_key::{parse_key, ParseError, PrimaryKey};
use crate::database::traits::DatabaseEntry;
use crate::document::Document;
use crate::person::Person;
use crate::user::User;
use crate::util::date::{date_of_text, Date};

verus! {

/// Data that was sent either as JSON or as a form.
#[derive(Debug, Clone, PartialEq, Eq)]
pub struct FlexibleInput<T>(pub T);

impl<T> FlexibleInput<T> {
    /// The value that was sent.
    pub fn into_inner(self) -> (value: T)
        ensures
            value == self.0,
    {
        self.0
    }
}

/// Why a form is no value: the field that is at fault, in words.
#[derive(Debug, Clone, Copy, PartialEq, Eq)]
pub struct MappingError(pub &'static str);

impl MappingError {
    /// The HTTP status that answers a form that is no value: bad request.
    pub fn status(&self) -> (code: u16)
        ensures
            code == 400,
    {
        400
    }

    /// The text of the error.
    pub fn to_string(&self) -> (text: String)
        ensures
            text@ == self.0@,
    {
        self.0.to_owned()
    }
}

/// The form by which a document is sent.
#[derive(Debug, Clone, PartialEq, Eq)]
pub struct DocumentForm {
    pub document: Vec<u8>,
    pub processed_by: String,
    pub from_person: String,
    pub to_person: String,
    pub recieved: String,
    pub processed: String,
    pub description: String,
}

/// Whether a text names a date that is not behind `today`.
pub open spec fn names_past_date(text: Seq<char>, today: Date) -> bool {
    date_of_text(text) is Some && date_of_text(text)->0 <= today.days()
}

/// The complaint about the first field of a form that is at fault, if one
/// is: the dates first, then the keys.
pub open spec fn complaint(form: DocumentForm, today: Date) -> Option<Seq<char>> {
    if !names_past_date(form.recieved@, today) {
        Some("'recieved' is not a valid date'"@)
    } else if !names_past_date(form.processed@, today) {
        Some("'processed' is not a valid date'"@)
    } else if parse_key(User::table_name_spec(), form.processed_by@) is Err {
        Some("'process_by' is not a valid primary key'"@)
    } else if parse_key(Person::table_name_spec(), form.from_person@) is Err {
        Some("'from_person' is not a valid primary key'"@)
    } else if parse_key(Person::table_name_spec(), form.to_person@) is Err {
        Some("'to_person' is not a valid primary key'"@)
    } else {
        None
    }
}

/// The date that a text names, unless it names none or one behind `today`.
fn past_date(text: &str, today: Date) -> (date: Option<Date>)
    ensures
        date is Some <==> names_past_date(text@, today),
        date is Some ==> date->0.days() == date_of_text(text@)->0,
{
    match Date::parse(text) {
        Some(date) => match Date::not_after(date, today) {
            Ok(date) => Some(date),
            Err(_) => None,
        },
        None => None,
    }
}

/// Whether `document` is what the form gives where `today` is the current
/// date: the complaint about the first field at fault, or the document with
/// the dates and keys that the texts of the form name.
pub open spec fn mapped(
    form: DocumentForm,
    today: Date,
    document: Result<Document, MappingError>,
) -> bool {
    match complaint(form, today) {
        Some(text) => document is Err && document->Err_0.0@ == text,
        None => {
            &&& document is Ok
            &&& document->Ok_0.document == form.document
            &&& document->Ok_0.description == form.description
            &&& document->Ok_0.recieved.days() == date_of_text(form.recieved@)->0
            &&& document->Ok_0.processed.days() == date_of_text(form.processed@)->0
            &&& parse_key(User::table_name_spec(), form.processed_by@) == Ok::<i64, ParseError>(
                document->Ok_0.processed_by.0,
            )
            &&& parse_key(Person::table_name_spec(), form.from_person@) == Ok::<i64, ParseError>(
                document->Ok_0.from_person.0,
            )
            &&& parse_key(Person::table_name_spec(), form.to_person@) == Ok::<i64, ParseError>(
                document->Ok_0.to_person.0,
            )
        },
    }
}

impl Document {
    /// The document that a form describes, where `today` is the current
    /// date: the dates must not lie in the future, and the keys must be
    /// keys of their tables.
    pub fn try_map_on(form: DocumentForm, today: Date) -> (document: Result<
        Document,
        MappingError,
    >)
        ensures
            mapped(form, today, document),
    {
        let recieved = match past_date(form.recieved.as_str(), today) {
            Some(date) => date,
            None => {
                return Err(MappingError("'recieved' is not a valid date'"));
            },
        };
        let processed = match past_date(form.processed.as_str(), today) {
            Some(date) => date,
            None => {
                return Err(MappingError("'processed' is not a valid date'"));
            },
        };
        let processed_by = match PrimaryKey::<User>::parse(form.processed_by.as_str()) {
            Ok(key) => key,
            Err(_) => {
                return Err(MappingError("'process_by' is not a valid primary key'"));
            },
        };
        let from_person = match PrimaryKey::<Person>::parse(form.from_person.as_str()) {
            Ok(key) => key,
            Err(_) => {
                return Err(MappingError("'from_person' is not a valid primary key'"));
            },
        };
        let to_person = match PrimaryKey::<Person>::parse(form.to_person.as_str()) {
            Ok(key) => key,
            Err(_) => {
                return Err(MappingError("'to_person' is not a valid primary key'"));
            },
        };
        Ok(
            Document {
                document: form.document,
                processed_by,
                from_person,
                to_person,
                recieved,
                processed,
                description: form.description,
            },
        )
    }

    /// The document that a form describes: what [`Document::try_map_on`]
    /// gives for the current date, which the clock decides.
    pub fn try_map(form: DocumentForm) -> (document: Result<Document, MappingError>)
        ensures
            exists|today: Date|
                #[trigger] call_ensures(Date::today, (), today) && mapped(form, today, document),
    {
        let today = Date::today();
        let document = Document::try_map_on(form, today);
        assert(call_ensures(Date::today, (), today) && mapped(form, today, document));
        document
    }
}

} // verus!
