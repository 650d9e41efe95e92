//! The fields of the forms by which rows are entered.
use vstd::prelude::*;

use super::util::{ForeignKeyStorage, List};
use crate::auth::AuthenticatedUser;
use crate::database::error::DatabaseError;

verus! {

/// What a text-like field shows.
#[derive(Debug, Clone, Copy, PartialEq, Eq)]
pub struct Metadata {
    pub label: &'static str,
    pub placeholder: Option<&'static str>,
    pub required: bool,
}

/// What a field for files shows and takes.
#[derive(Debug, Clone, Copy, PartialEq, Eq)]
pub struct FileMetadata {
    pub label: &'static str,
    pub extensions: &'static [&'static str],
    pub multiple: bool,
}

/// A field that the page fills in by itself, from the user who is logged
/// in.
#[derive(Debug)]
pub struct HiddenValue<F: Fn(&AuthenticatedUser) -> String> {
    /// The way in which the value is made.
    pub generator: F,
    pub value: Option<String>,
}

impl<F: Fn(&AuthenticatedUser) -> String> HiddenValue<F> {
    /// The field with the given way to make its value, and no value yet.
    pub fn new(generator: F) -> (hidden: Self)
        ensures
            hidden.value is None,
            hidden.generator == generator,
    {
        HiddenValue { generator, value: None }
    }

    /// Make the value for the given user.
    pub fn set_value(&mut self, user: &AuthenticatedUser)
        requires
            call_requires(old(self).generator, (user,)),
        ensures
            final(self).generator == old(self).generator,
            final(self).value is Some,
            call_ensures(old(self).generator, (user,), final(self).value->0),
    {
        let value = (self.generator)(user);
        self.value = Some(value);
    }
}

impl<F: Fn(&AuthenticatedUser) -> String + Copy> Clone for HiddenValue<F> {
    /// The same field, without a value.
    fn clone(&self) -> (hidden: Self)
        ensures
            hidden.generator == self.generator,
            hidden.value is None,
    {
        HiddenValue { generator: self.generator, value: None }
    }
}

/// A field in which a row of another table is chosen.
#[derive(Debug)]
pub struct ForeignKeyMetaData<
    L: Fn(&mut ForeignKeyStorage<'_, List>) -> Result<(), DatabaseError>,
> {
    pub metadata: Metadata,
    /// The way in which the labels of the other table are loaded.
    pub callback: L,
    /// The name of the other table.
    pub list_name: &'static str,
}

impl<L: Fn(&mut ForeignKeyStorage<'_, List>) -> Result<(), DatabaseError>> ForeignKeyMetaData<L> {
    /// The field for the rows of the table `list_name`, whose labels
    /// `callback` loads.
    pub fn new(metadata: Metadata, callback: L, list_name: &'static str) -> (foreign: Self)
        ensures
            foreign.metadata == metadata,
            foreign.callback == callback,
            foreign.list_name == list_name,
    {
        ForeignKeyMetaData { metadata, callback, list_name }
    }

    /// Load the labels of the other table into the cache.
    pub fn load(&self, foreign_keys: &mut ForeignKeyStorage<'_, List>) -> (loaded: Result<
        (),
        DatabaseError,
    >)
        requires
            forall|storage: &mut ForeignKeyStorage<'_, List>|
                call_requires(self.callback, (storage,)),
        ensures
            exists|storage: &mut ForeignKeyStorage<'_, List>|
                #[trigger] call_ensures(self.callback, (storage,), loaded) && *storage == *old(
                    foreign_keys,
                ) && *final(storage) == *final(foreign_keys),
    {
        (self.callback)(foreign_keys)
    }

    /// The name of the other table.
    pub fn list_name(&self) -> (name: &'static str)
        ensures
            name == self.list_name,
    {
        self.list_name
    }
}

/// The kinds of fields of a form.
#[derive(Debug)]
pub enum InputType<
    F: Fn(&AuthenticatedUser) -> String,
    L: Fn(&mut ForeignKeyStorage<'_, List>) -> Result<(), DatabaseError>,
> {
    Text(Metadata),
    Email(Metadata),
    Number(Metadata),
    Password(Metadata),
    Date(Metadata),
    File(FileMetadata),
    Hidden(HiddenValue<F>),
    ForeignKey(ForeignKeyMetaData<L>),
}

impl<
    F: Fn(&AuthenticatedUser) -> String,
    L: Fn(&mut ForeignKeyStorage<'_, List>) -> Result<(), DatabaseError>,
> InputType<F, L> {
    /// The value of the `type` attribute of the field's element.
    pub open spec fn html_type(&self) -> Seq<char> {
        match self {
            InputType::Text(_) => "text"@,
            InputType::Number(_) => "number"@,
            InputType::ForeignKey(_) => "select"@,
            InputType::Password(_) => "password"@,
            InputType::Email(_) => "email"@,
            InputType::Date(_) => "date"@,
            InputType::Hidden(_) => "hidden"@,
            InputType::File(_) => "file"@,
        }
    }

    /// The value of the `type` attribute of the field's element.
    pub fn html_value(&self) -> (value: &'static str)
        ensures
            value@ == self.html_type(),
    {
        match self {
            InputType::Text(_) => "text",
            InputType::Number(_) => "number",
            InputType::ForeignKey(_) => "select",
            InputType::Password(_) => "password",
            InputType::Email(_) => "email",
            InputType::Date(_) => "date",
            InputType::Hidden(_) => "hidden",
            InputType::File(_) => "file",
        }
    }

    /// A hidden field with the given way to make its value.
    pub fn new_hidden(callback: F) -> (input: Self)
        ensures
            input is Hidden,
            input->Hidden_0.value is None,
            input->Hidden_0.generator == callback,
    {
        InputType::Hidden(HiddenValue::new(callback))
    }

    /// A field in which a row of the table `list_name` is chosen.
    pub fn new_foreign(metadata: Metadata, callback: L, list_name: &'static str) -> (input: Self)
        ensures
            input is ForeignKey,
            input->ForeignKey_0.metadata == metadata,
            input->ForeignKey_0.callback == callback,
            input->ForeignKey_0.list_name == list_name,
    {
        InputType::ForeignKey(ForeignKeyMetaData::new(metadata, callback, list_name))
    }
}

/// One field of a form.
#[derive(Debug)]
pub struct Field<
    F: Fn(&AuthenticatedUser) -> String,
    L: Fn(&mut ForeignKeyStorage<'_, List>) -> Result<(), DatabaseError>,
> {
    pub id: &'static str,
    pub input_type: InputType<F, L>,
    pub attributes: &'static [&'static str],
}

impl<
    F: Fn(&AuthenticatedUser) -> String,
    L: Fn(&mut ForeignKeyStorage<'_, List>) -> Result<(), DatabaseError>,
> Field<F, L> {
    /// The field of the given name and kind, without further attributes.
    pub fn new(id: &'static str, input_type: InputType<F, L>) -> (field: Self)
        ensures
            field.id == id,
            field.input_type == input_type,
            field.attributes@.len() == 0,
    {
        Field { id, input_type, attributes: &[] }
    }

    /// Whether the field can be made ready for `user`: a hidden field's
    /// generator takes the user, and the callback of a field that refers to
    /// another table takes every cache.
    pub open spec fn preparable_for(self, user: AuthenticatedUser) -> bool {
        &&& self.input_type is Hidden ==> call_requires(
            self.input_type->Hidden_0.generator,
            (&user,),
        )
        &&& self.input_type is ForeignKey ==> forall|storage: &mut ForeignKeyStorage<'_, List>|
            call_requires(self.input_type->ForeignKey_0.callback, (storage,))
    }

    /// Whether the field is ready to be shown to `user`: a hidden field has
    /// the value that its generator makes for the user.
    pub open spec fn prepared_for(self, user: AuthenticatedUser) -> bool {
        self.input_type is Hidden ==> self.input_type->Hidden_0.value is Some && call_ensures(
            self.input_type->Hidden_0.generator,
            (&user,),
            self.input_type->Hidden_0.value->0,
        )
    }
}

/// Make the fields of a form ready to be shown: every hidden field gets its
/// value for the user, and the labels for every field that refers to another
/// table are loaded into the cache. A table whose labels cannot be loaded is
/// left out.
pub fn prepare_fields<
    F: Fn(&AuthenticatedUser) -> String,
    L: Fn(&mut ForeignKeyStorage<'_, List>) -> Result<(), DatabaseError>,
>(
    fields: &mut Vec<Field<F, L>>,
    user: &AuthenticatedUser,
    foreign_keys: &mut ForeignKeyStorage<'_, List>,
)
    requires
        forall|i: int|
            0 <= i < old(fields).len() ==> (#[trigger] old(fields)[i]).preparable_for(*user),
    ensures
        final(fields).len() == old(fields).len(),
        forall|i: int|
            0 <= i < final(fields).len() ==> (#[trigger] final(fields)[i]).prepared_for(*user),
        forall|i: int|
            0 <= i < final(fields).len() ==> (#[trigger] final(fields)[i]).id == old(fields)[i].id
                && final(fields)[i].attributes == old(fields)[i].attributes,
        forall|i: int|
            0 <= i < final(fields).len() && !(old(fields)[i].input_type is Hidden)
                ==> #[trigger] final(fields)[i] == old(fields)[i],
{
    let mut i: usize = 0;
    while i < fields.len()
        invariant
            i <= fields.len(),
            fields.len() == old(fields).len(),
            forall|k: int| 0 <= k < i ==> (#[trigger] fields[k]).prepared_for(*user),
            forall|k: int|
                0 <= k < fields.len() ==> (#[trigger] fields[k]).id == old(fields)[k].id
                    && fields[k].attributes == old(fields)[k].attributes,
            forall|k: int|
                0 <= k < fields.len() && !(old(fields)[k].input_type is Hidden)
                    ==> #[trigger] fields[k] == old(fields)[k],
            forall|k: int| i <= k < fields.len() ==> #[trigger] fields[k] == old(fields)[k],
            forall|k: int|
                0 <= k < old(fields).len() ==> (#[trigger] old(fields)[k]).preparable_for(*user),
        decreases fields.len() - i,
    {
        match &mut fields[i].input_type {
            InputType::Hidden(hidden) => {
                hidden.set_value(user);
            },
            InputType::ForeignKey(foreign) => {
                let _ = foreign.load(foreign_keys);
            },
            _ => {},
        }
        i += 1;
    }
}

} // verus!
