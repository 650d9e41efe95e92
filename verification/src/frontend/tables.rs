//! The tables by which the rows of the store are shown.
use vstd::prelude::*;

use super::util::{loads_tables, ForeignKeyStorage, LabelMap};
use crate::accounting::{Account, Category, CostCenter};
use crate::database::dependency::texts;
use crate::database::error::{DatabaseError, ErrorKind};
use crate::database::primary_key::key_text;
use crate::database::record::Record;
use crate::database::schema::names_view;
use crate::database::sqlite::Database;
use crate::database::traits::{DatabaseEntry, Decodable, Selectable};
use crate::document::Document;
use crate::person::{Group, Person};
use crate::text::{from_chars, nat_text, push_str, push_u64, to_chars};
use crate::user::User;
use crate::util::pagination::{url_fragment, Pagination};

verus! {

/// Whether `pattern` stands in `text` at the place `at`.
pub open spec fn stands_at(text: Seq<char>, pattern: Seq<char>, at: int) -> bool {
    0 <= at && at + pattern.len() <= text.len() && text.subrange(at, at + pattern.len())
        == pattern
}

/// The part of `text` before the first place at which `pattern` stands, or
/// the empty text where it stands nowhere.
pub open spec fn before_first(text: Seq<char>, pattern: Seq<char>) -> Seq<char> {
    if exists|at: int| stands_at(text, pattern, at) {
        let first = choose|at: int|
            stands_at(text, pattern, at) && forall|earlier: int|
                0 <= earlier < at ==> !stands_at(text, pattern, earlier);
        text.subrange(0, first)
    } else {
        Seq::<char>::empty()
    }
}

/// Whether `pattern` stands in `text` at the place `at`.
fn matches_at(text: &Vec<char>, pattern: &Vec<char>, at: usize) -> (matches: bool)
    requires
        at + pattern.len() <= text.len(),
    ensures
        matches == stands_at(text@, pattern@, at as int),
{
    let mut i: usize = 0;
    while i < pattern.len()
        invariant
            i <= pattern.len(),
            at + pattern.len() <= text.len(),
            forall|k: int| 0 <= k < i ==> text@[at + k] == pattern@[k],
        decreases pattern.len() - i,
    {
        if text[at + i] != pattern[i] {
            assert(text@.subrange(at as int, at + pattern.len())[i as int] != pattern@[i as int]);
            return false;
        }
        i += 1;
    }
    assert(text@.subrange(at as int, at + pattern.len()) =~= pattern@);
    true
}

/// The part of `text` before the first place at which `pattern` stands, or
/// the empty text where it stands nowhere.
pub fn prefix_before(text: &str, pattern: &str) -> (prefix: String)
    ensures
        prefix@ == before_first(text@, pattern@),
{
    let text_chars = to_chars(text);
    let pattern_chars = to_chars(pattern);
    if pattern_chars.len() > text_chars.len() {
        assert forall|at: int| !stands_at(text@, pattern@, at) by {}
        return String::new();
    }
    let last = text_chars.len() - pattern_chars.len();
    let mut at: usize = 0;
    loop
        invariant
            at <= last,
            last == text_chars.len() - pattern_chars.len(),
            text_chars@ == text@,
            pattern_chars@ == pattern@,
            forall|earlier: int| 0 <= earlier < at ==> !stands_at(text@, pattern@, earlier),
        decreases last - at,
    {
        if matches_at(&text_chars, &pattern_chars, at) {
            let mut prefix: Vec<char> = Vec::new();
            let mut i: usize = 0;
            while i < at
                invariant
                    i <= at,
                    at <= text_chars.len(),
                    prefix@ == text_chars@.subrange(0, i as int),
                decreases at - i,
            {
                prefix.push(text_chars[i]);
                i += 1;
            }
            proof {
                let first = choose|first: int|
                    stands_at(text@, pattern@, first) && forall|earlier: int|
                        0 <= earlier < first ==> !stands_at(text@, pattern@, earlier);
                if first < at {
                    assert(!stands_at(text@, pattern@, first));
                }
                if at < first {
                    assert(!stands_at(text@, pattern@, at as int));
                }
            }
            return from_chars(&prefix);
        }
        if at == last {
            assert forall|place: int| !stands_at(text@, pattern@, place) by {}
            return String::new();
        }
        at += 1;
    }
}

/// The label of a key, or the text of the key where the cache has no label.
fn label_or_key<T: crate::database::traits::Referenceable>(
    foreign_keys: &ForeignKeyStorage<'_, LabelMap>,
    key: crate::database::primary_key::PrimaryKey<T>,
    fallback: crate::database::primary_key::PrimaryKey<T>,
) -> (text: String)
    ensures
        text@ == (match foreign_keys.label_of(T::table_name_spec(), key.0) {
            Some(label) => label,
            None => key_text(T::table_name_spec(), fallback.0),
        }),
{
    match foreign_keys.get(key) {
        Some(label) => label.to_owned(),
        None => fallback.to_string(),
    }
}

/// A stored type whose rows are shown as the lines of a table.
pub trait RenderableDatabaseEntry: Selectable {
    /// The line of a row, cell by cell.
    spec fn table_row(entry: Self::Output, foreign_keys: ForeignKeyStorage<'_, LabelMap>) -> Seq<
        Seq<char>,
    >;

    /// The path of the form by which a new row is entered.
    spec fn url_add_spec() -> Seq<char>;

    /// The title of the table.
    spec fn title_spec() -> Seq<char>;

    /// The headings of the columns.
    spec fn headers_spec() -> Seq<Seq<char>>;

    /// The title of the table.
    fn title() -> (title: &'static str)
        ensures
            title@ == Self::title_spec(),
    ;

    /// The headings of the columns.
    fn headers() -> (headers: Vec<&'static str>)
        ensures
            names_view(headers@) == Self::headers_spec(),
    ;

    /// The path of the form by which a new row is entered.
    fn url_add() -> (path: &'static str)
        ensures
            path@ == Self::url_add_spec(),
    ;

    /// The tables whose labels the lines need.
    spec fn required_tables() -> Seq<Seq<char>>;

    /// Load the labels that the lines need into the cache.
    fn load_required_foreign_keys(
        foreign_keys: &mut ForeignKeyStorage<'_, LabelMap>,
    ) -> (loaded: Result<(), DatabaseError>)
        ensures
            loads_tables(
                *old(foreign_keys),
                *final(foreign_keys),
                Self::required_tables(),
                loaded,
            ),
    ;

    /// The line of a row, cell by cell.
    fn generate_table_row(
        entry: &Self::Output,
        foreign_keys: &ForeignKeyStorage<'_, LabelMap>,
    ) -> (row: Vec<String>)
        ensures
            texts(row@) == Self::table_row(*entry, *foreign_keys),
    ;

    /// The path under which the rows are listed: the path of the form up to
    /// its last part `/new`.
    fn url() -> (path: String)
        ensures
            path@ == before_first(Self::url_add_spec(), "/new"@),
    {
        prefix_before(Self::url_add(), "/new")
    }

    /// The lines of one page of the table: the labels that the lines need
    /// are loaded into a new cache, then the rows of the page are selected,
    /// and each row gives its line, in the order of the rows. The first
    /// failure is the failure of the whole.
    fn prepare_rendering_all(database: &Database, pagination: Pagination<Self>) -> (table: Result<
        TableRenderer<Self>,
        DatabaseError,
    >)
        ensures
            exists|storage: &mut ForeignKeyStorage<'_, LabelMap>, loaded: Result<(), DatabaseError>|
                {
                    &&& #[trigger] call_ensures(
                        Self::load_required_foreign_keys,
                        (storage,),
                        loaded,
                    )
                    &&& storage.database() == database
                    &&& storage.tables().len() == 0
                    &&& storage.loads() == 0
                    &&& match loaded {
                        Err(error) => table == Err::<TableRenderer<Self>, DatabaseError>(error),
                        Ok(()) => exists|selection: Result<Vec<Self::Output>, DatabaseError>|
                            {
                                &&& #[trigger] call_ensures(
                                    Self::select_all_sorted,
                                    (database, pagination),
                                    selection,
                                )
                                &&& match selection {
                                    Err(error) => table == Err::<
                                        TableRenderer<Self>,
                                        DatabaseError,
                                    >(error),
                                    Ok(entries) => {
                                        &&& table is Ok
                                        &&& table->Ok_0.1 == pagination
                                        &&& table->Ok_0.0.len() == entries.len()
                                        &&& forall|i: int|
                                            0 <= i < entries.len() ==> texts(
                                                (#[trigger] table->Ok_0.0@[i])@,
                                            ) == Self::table_row(entries@[i], *final(storage))
                                    },
                                }
                            },
                    }
                },
            table is Ok ==> table->Ok_0.1 == pagination,
            table is Err ==> table->Err_0.kind == ErrorKind::Store,
    {
        let mut foreign_keys: ForeignKeyStorage<'_, LabelMap> = ForeignKeyStorage::from(database);
        let loaded = Self::load_required_foreign_keys(&mut foreign_keys);
        match loaded {
            Ok(()) => {},
            Err(error) => {
                return Err(error);
            },
        }
        let selection = Self::select_all_sorted(database, pagination);
        let ghost selected_entries = selection;
        assert(call_ensures(Self::select_all_sorted, (database, pagination), selected_entries));
        let entries = match selection {
            Ok(entries) => entries,
            Err(error) => {
                return Err(error);
            },
        };
        let storage = &foreign_keys;
        let make = |entry: &Self::Output| -> (row: Vec<String>)
            ensures
                texts(row@) == Self::table_row(*entry, *storage),
            {
                Self::generate_table_row(entry, storage)
            };
        let rows = render_rows(&entries, make);
        let table = TableRenderer(rows, pagination);
        assert forall|i: int| 0 <= i < entries@.len() implies texts((#[trigger] table.0@[i])@)
            == Self::table_row(entries@[i], foreign_keys) by {
            assert(call_ensures(make, (&entries@[i],), rows@[i]));
        }
        Ok(table)
    }
}

/// The lines of the given entries: `make` gives the line of each, and the
/// lines stand in the order of the entries.
pub fn render_rows<O, F: Fn(&O) -> Vec<String>>(entries: &Vec<O>, make: F) -> (rows: Vec<
    Vec<String>,
>)
    requires
        forall|entry: &O| call_requires(make, (entry,)),
    ensures
        rows.len() == entries.len(),
        forall|i: int|
            0 <= i < entries.len() ==> call_ensures(make, (&entries@[i],), #[trigger] rows@[i]),
{
    let mut rows: Vec<Vec<String>> = Vec::new();
    let mut i: usize = 0;
    while i < entries.len()
        invariant
            i <= entries.len(),
            rows.len() == i,
            forall|entry: &O| call_requires(make, (entry,)),
            forall|k: int| 0 <= k < i ==> call_ensures(make, (&entries@[k],), #[trigger] rows@[k]),
        decreases entries.len() - i,
    {
        let row = make(&entries[i]);
        rows.push(row);
        i += 1;
    }
    rows
}

/// One page of a table: its lines and the page that they are.
pub struct TableRenderer<T: RenderableDatabaseEntry>(pub Vec<Vec<String>>, pub Pagination<T>);

impl<T: RenderableDatabaseEntry> TableRenderer<T> {
    /// The address of a page of the table.
    fn address(page: Pagination<T>) -> (address: String)
        ensures
            address@ == before_first(T::url_add_spec(), "/new"@) + url_fragment(
                page.column.name(),
                page.order,
                page.limit.value(),
                page.offset as nat,
            ),
    {
        let mut out: Vec<char> = Vec::new();
        push_str(&mut out, T::url().as_str());
        push_str(&mut out, page.display_url().as_str());
        from_chars(&out)
    }

    /// The address of the next page, if the page is full.
    pub fn next_url(&self) -> (address: Option<String>)
        ensures
            match self.1.next_page(self.0.len()) {
                Some(page) => address is Some && address->0@ == before_first(
                    T::url_add_spec(),
                    "/new"@,
                ) + url_fragment(
                    page.column.name(),
                    page.order,
                    page.limit.value(),
                    page.offset as nat,
                ),
                None => address is None,
            },
    {
        match self.1.next(self.0.len()) {
            Some(page) => Some(Self::address(page)),
            None => None,
        }
    }

    /// The address of the page before, if there is one.
    pub fn previous_url(&self) -> (address: Option<String>)
        ensures
            match self.1.previous_page() {
                Some(page) => address is Some && address->0@ == before_first(
                    T::url_add_spec(),
                    "/new"@,
                ) + url_fragment(
                    page.column.name(),
                    page.order,
                    page.limit.value(),
                    page.offset as nat,
                ),
                None => address is None,
            },
    {
        match self.1.previous() {
            Some(page) => Some(Self::address(page)),
            None => None,
        }
    }
}

impl RenderableDatabaseEntry for Person {
    open spec fn table_row(
        entry: Record<Person>,
        foreign_keys: ForeignKeyStorage<'_, LabelMap>,
    ) -> Seq<
        Seq<char>,
    > {
        seq![
            entry.value.name@,
            entry.value.address@,
            match entry.value.email {
                Some(email) => email@,
                None => Seq::<char>::empty(),
            },
        ]
    }

    open spec fn url_add_spec() -> Seq<char> {
        "/persons/new"@
    }

    open spec fn title_spec() -> Seq<char> {
        "Contacts"@
    }

    open spec fn headers_spec() -> Seq<Seq<char>> {
        seq!["Name"@, "Address"@, "E-Mail"@]
    }

    fn title() -> (title: &'static str) {
        "Contacts"
    }

    fn headers() -> (headers: Vec<&'static str>) {
        let mut columns: Vec<&'static str> = Vec::new();
        columns.push("Name");
        columns.push("Address");
        columns.push("E-Mail");
        assert(names_view(columns@) =~= Self::headers_spec());
        columns
    }

    fn url_add() -> (path: &'static str) {
        "/persons/new"
    }

    open spec fn required_tables() -> Seq<Seq<char>> {
        Seq::<Seq<char>>::empty()
    }

    fn load_required_foreign_keys(
        foreign_keys: &mut ForeignKeyStorage<'_, LabelMap>,
    ) -> (loaded: Result<(), DatabaseError>) {
        let loaded = Ok(());
        proof {
            let held = foreign_keys.tables();
            assert(Self::required_tables().len() == 0);
            assert(held.subrange(0, held.len() as int) == held);
            assert(foreign_keys.containers().subrange(
                0,
                foreign_keys.containers().len() as int,
            ) == foreign_keys.containers());
            assert forall|i: int| 0 <= i < held.len() implies held.contains(
                #[trigger] held[i],
            ) by {}
        }
        loaded
    }

    fn generate_table_row(
        entry: &Record<Person>,
        foreign_keys: &ForeignKeyStorage<'_, LabelMap>,
    ) -> (row: Vec<String>) {
        let mut row: Vec<String> = Vec::new();
        row.push(entry.value.name.clone());
        row.push(entry.value.address.clone());
        row.push(
            match &entry.value.email {
                Some(email) => email.clone(),
                None => String::new(),
            },
        );
        assert(texts(row@) =~= Self::table_row(*entry, *foreign_keys));
        row
    }
}

impl RenderableDatabaseEntry for Group {
    open spec fn table_row(
        entry: Record<Group>,
        foreign_keys: ForeignKeyStorage<'_, LabelMap>,
    ) -> Seq<
        Seq<char>,
    > {
        seq![entry.value.description@]
    }

    open spec fn url_add_spec() -> Seq<char> {
        "/groups/new"@
    }

    open spec fn title_spec() -> Seq<char> {
        "Groups"@
    }

    open spec fn headers_spec() -> Seq<Seq<char>> {
        seq!["Description"@]
    }

    fn title() -> (title: &'static str) {
        "Groups"
    }

    fn headers() -> (headers: Vec<&'static str>) {
        let mut columns: Vec<&'static str> = Vec::new();
        columns.push("Description");
        assert(names_view(columns@) =~= Self::headers_spec());
        columns
    }

    fn url_add() -> (path: &'static str) {
        "/groups/new"
    }

    open spec fn required_tables() -> Seq<Seq<char>> {
        Seq::<Seq<char>>::empty()
    }

    fn load_required_foreign_keys(
        foreign_keys: &mut ForeignKeyStorage<'_, LabelMap>,
    ) -> (loaded: Result<(), DatabaseError>) {
        let loaded = Ok(());
        proof {
            let held = foreign_keys.tables();
            assert(Self::required_tables().len() == 0);
            assert(held.subrange(0, held.len() as int) == held);
            assert(foreign_keys.containers().subrange(
                0,
                foreign_keys.containers().len() as int,
            ) == foreign_keys.containers());
            assert forall|i: int| 0 <= i < held.len() implies held.contains(
                #[trigger] held[i],
            ) by {}
        }
        loaded
    }

    fn generate_table_row(
        entry: &Record<Group>,
        foreign_keys: &ForeignKeyStorage<'_, LabelMap>,
    ) -> (row: Vec<String>) {
        let mut row: Vec<String> = Vec::new();
        row.push(entry.value.description.clone());
        assert(texts(row@) =~= Self::table_row(*entry, *foreign_keys));
        row
    }
}

impl RenderableDatabaseEntry for Document {
    open spec fn table_row(
        entry: crate::document::Metadata,
        foreign_keys: ForeignKeyStorage<'_, LabelMap>,
    ) -> Seq<
        Seq<char>,
    > {
        seq![
            "<a href=\""@ + key_text(Document::table_name_spec(), entry.identifier.0)
                + "/pdf\">PDF</a>"@,
            entry.recieved.text(),
            entry.processed.text(),
            match foreign_keys.label_of(Person::table_name_spec(), entry.from_person.0) {
                Some(label) => label,
                None => key_text(Person::table_name_spec(), entry.from_person.0),
            },
            match foreign_keys.label_of(Person::table_name_spec(), entry.to_person.0) {
                Some(label) => label,
                None => key_text(Person::table_name_spec(), entry.from_person.0),
            },
            entry.description@,
        ]
    }

    open spec fn url_add_spec() -> Seq<char> {
        "/documents/new"@
    }

    open spec fn title_spec() -> Seq<char> {
        "Documents"@
    }

    open spec fn headers_spec() -> Seq<Seq<char>> {
        seq!["File"@, "Recieved"@, "Processed"@, "From"@, "To"@, "Description"@]
    }

    fn title() -> (title: &'static str) {
        "Documents"
    }

    fn headers() -> (headers: Vec<&'static str>) {
        let mut columns: Vec<&'static str> = Vec::new();
        columns.push("File");
        columns.push("Recieved");
        columns.push("Processed");
        columns.push("From");
        columns.push("To");
        columns.push("Description");
        assert(names_view(columns@) =~= Self::headers_spec());
        columns
    }

    fn url_add() -> (path: &'static str) {
        "/documents/new"
    }

    open spec fn required_tables() -> Seq<Seq<char>> {
        seq![Person::table_name_spec()]
    }

    fn load_required_foreign_keys(
        foreign_keys: &mut ForeignKeyStorage<'_, LabelMap>,
    ) -> (loaded: Result<(), DatabaseError>)
        ensures
            exists|storage: &mut ForeignKeyStorage<'_, LabelMap>|
                {
                    &&& #[trigger] call_ensures(
                        ForeignKeyStorage::<'_, LabelMap>::add::<Person>,
                        (storage,),
                        loaded,
                    )
                    &&& *storage == *old(foreign_keys)
                    &&& *final(storage) == *final(foreign_keys)
                },
    {
        let loaded = foreign_keys.add::<Person>();
        assert(Self::required_tables() == seq![Person::table_name_spec()]);
        loaded
    }

    fn generate_table_row(
        entry: &crate::document::Metadata,
        foreign_keys: &ForeignKeyStorage<'_, LabelMap>,
    ) -> (row: Vec<String>) {
        let mut row: Vec<String> = Vec::new();
        let mut link: Vec<char> = Vec::new();
        push_str(&mut link, "<a href=\"");
        push_str(&mut link, entry.identifier.to_string().as_str());
        push_str(&mut link, "/pdf\">PDF</a>");
        row.push(from_chars(&link));
        row.push(entry.recieved.to_string());
        row.push(entry.processed.to_string());
        row.push(label_or_key(foreign_keys, entry.from_person, entry.from_person));
        row.push(label_or_key(foreign_keys, entry.to_person, entry.from_person));
        row.push(entry.description.clone());
        assert(texts(row@) =~= Self::table_row(*entry, *foreign_keys));
        row
    }
}

impl RenderableDatabaseEntry for User {
    open spec fn table_row(
        entry: crate::user::Metadata,
        foreign_keys: ForeignKeyStorage<'_, LabelMap>,
    ) -> Seq<
        Seq<char>,
    > {
        seq![
            entry.username@,
            entry.creation_date.text(),
            match entry.related_to {
                Some(person) => match foreign_keys.label_of(Person::table_name_spec(), person.0) {
                    Some(label) => label,
                    None => Seq::<char>::empty(),
                },
                None => Seq::<char>::empty(),
            },
        ]
    }

    open spec fn url_add_spec() -> Seq<char> {
        "/users/new"@
    }

    open spec fn title_spec() -> Seq<char> {
        "Users"@
    }

    open spec fn headers_spec() -> Seq<Seq<char>> {
        seq!["Name"@, "Creation date"@, "Used by"@]
    }

    fn title() -> (title: &'static str) {
        "Users"
    }

    fn headers() -> (headers: Vec<&'static str>) {
        let mut columns: Vec<&'static str> = Vec::new();
        columns.push("Name");
        columns.push("Creation date");
        columns.push("Used by");
        assert(names_view(columns@) =~= Self::headers_spec());
        columns
    }

    fn url_add() -> (path: &'static str) {
        "/users/new"
    }

    open spec fn required_tables() -> Seq<Seq<char>> {
        seq![Person::table_name_spec()]
    }

    fn load_required_foreign_keys(
        foreign_keys: &mut ForeignKeyStorage<'_, LabelMap>,
    ) -> (loaded: Result<(), DatabaseError>)
        ensures
            exists|storage: &mut ForeignKeyStorage<'_, LabelMap>|
                {
                    &&& #[trigger] call_ensures(
                        ForeignKeyStorage::<'_, LabelMap>::add::<Person>,
                        (storage,),
                        loaded,
                    )
                    &&& *storage == *old(foreign_keys)
                    &&& *final(storage) == *final(foreign_keys)
                },
    {
        let loaded = foreign_keys.add::<Person>();
        assert(Self::required_tables() == seq![Person::table_name_spec()]);
        loaded
    }

    fn generate_table_row(
        entry: &crate::user::Metadata,
        foreign_keys: &ForeignKeyStorage<'_, LabelMap>,
    ) -> (row: Vec<String>) {
        let mut row: Vec<String> = Vec::new();
        row.push(entry.username.clone());
        row.push(entry.creation_date.to_string());
        row.push(
            match entry.related_to {
                Some(person) => match foreign_keys.get(person) {
                    Some(label) => label.to_owned(),
                    None => String::new(),
                },
                None => String::new(),
            },
        );
        assert(texts(row@) =~= Self::table_row(*entry, *foreign_keys));
        row
    }
}

impl RenderableDatabaseEntry for Category {
    open spec fn table_row(
        entry: Record<Category>,
        foreign_keys: ForeignKeyStorage<'_, LabelMap>,
    ) -> Seq<
        Seq<char>,
    > {
        seq![entry.value.description@]
    }

    open spec fn url_add_spec() -> Seq<char> {
        "/categories/new"@
    }

    open spec fn title_spec() -> Seq<char> {
        "Categories"@
    }

    open spec fn headers_spec() -> Seq<Seq<char>> {
        seq!["Description"@]
    }

    fn title() -> (title: &'static str) {
        "Categories"
    }

    fn headers() -> (headers: Vec<&'static str>) {
        let mut columns: Vec<&'static str> = Vec::new();
        columns.push("Description");
        assert(names_view(columns@) =~= Self::headers_spec());
        columns
    }

    fn url_add() -> (path: &'static str) {
        "/categories/new"
    }

    open spec fn required_tables() -> Seq<Seq<char>> {
        Seq::<Seq<char>>::empty()
    }

    fn load_required_foreign_keys(
        foreign_keys: &mut ForeignKeyStorage<'_, LabelMap>,
    ) -> (loaded: Result<(), DatabaseError>) {
        let loaded = Ok(());
        proof {
            let held = foreign_keys.tables();
            assert(Self::required_tables().len() == 0);
            assert(held.subrange(0, held.len() as int) == held);
            assert(foreign_keys.containers().subrange(
                0,
                foreign_keys.containers().len() as int,
            ) == foreign_keys.containers());
            assert forall|i: int| 0 <= i < held.len() implies held.contains(
                #[trigger] held[i],
            ) by {}
        }
        loaded
    }

    fn generate_table_row(
        entry: &Record<Category>,
        foreign_keys: &ForeignKeyStorage<'_, LabelMap>,
    ) -> (row: Vec<String>) {
        let mut row: Vec<String> = Vec::new();
        row.push(entry.value.description.clone());
        assert(texts(row@) =~= Self::table_row(*entry, *foreign_keys));
        row
    }
}

impl RenderableDatabaseEntry for CostCenter {
    open spec fn table_row(
        entry: Record<CostCenter>,
        foreign_keys: ForeignKeyStorage<'_, LabelMap>,
    ) -> Seq<
        Seq<char>,
    > {
        seq![entry.value.description@]
    }

    open spec fn url_add_spec() -> Seq<char> {
        "/cost_centers/new"@
    }

    open spec fn title_spec() -> Seq<char> {
        "Cost centers"@
    }

    open spec fn headers_spec() -> Seq<Seq<char>> {
        seq!["Description"@]
    }

    fn title() -> (title: &'static str) {
        "Cost centers"
    }

    fn headers() -> (headers: Vec<&'static str>) {
        let mut columns: Vec<&'static str> = Vec::new();
        columns.push("Description");
        assert(names_view(columns@) =~= Self::headers_spec());
        columns
    }

    fn url_add() -> (path: &'static str) {
        "/cost_centers/new"
    }

    open spec fn required_tables() -> Seq<Seq<char>> {
        Seq::<Seq<char>>::empty()
    }

    fn load_required_foreign_keys(
        foreign_keys: &mut ForeignKeyStorage<'_, LabelMap>,
    ) -> (loaded: Result<(), DatabaseError>) {
        let loaded = Ok(());
        proof {
            let held = foreign_keys.tables();
            assert(Self::required_tables().len() == 0);
            assert(held.subrange(0, held.len() as int) == held);
            assert(foreign_keys.containers().subrange(
                0,
                foreign_keys.containers().len() as int,
            ) == foreign_keys.containers());
            assert forall|i: int| 0 <= i < held.len() implies held.contains(
                #[trigger] held[i],
            ) by {}
        }
        loaded
    }

    fn generate_table_row(
        entry: &Record<CostCenter>,
        foreign_keys: &ForeignKeyStorage<'_, LabelMap>,
    ) -> (row: Vec<String>) {
        let mut row: Vec<String> = Vec::new();
        row.push(entry.value.description.clone());
        assert(texts(row@) =~= Self::table_row(*entry, *foreign_keys));
        row
    }
}

impl RenderableDatabaseEntry for Account {
    open spec fn table_row(
        entry: Record<Account>,
        foreign_keys: ForeignKeyStorage<'_, LabelMap>,
    ) -> Seq<
        Seq<char>,
    > {
        seq![
            nat_text(entry.value.code as nat),
            match foreign_keys.label_of(Category::table_name_spec(), entry.value.category.0) {
                Some(label) => label,
                None => key_text(Category::table_name_spec(), entry.value.category.0),
            },
            entry.value.description@,
        ]
    }

    open spec fn url_add_spec() -> Seq<char> {
        "/accounts/new"@
    }

    open spec fn title_spec() -> Seq<char> {
        "Accounts"@
    }

    open spec fn headers_spec() -> Seq<Seq<char>> {
        seq!["Code"@, "Category"@, "Description"@]
    }

    fn title() -> (title: &'static str) {
        "Accounts"
    }

    fn headers() -> (headers: Vec<&'static str>) {
        let mut columns: Vec<&'static str> = Vec::new();
        columns.push("Code");
        columns.push("Category");
        columns.push("Description");
        assert(names_view(columns@) =~= Self::headers_spec());
        columns
    }

    fn url_add() -> (path: &'static str) {
        "/accounts/new"
    }

    open spec fn required_tables() -> Seq<Seq<char>> {
        seq![Category::table_name_spec()]
    }

    fn load_required_foreign_keys(
        foreign_keys: &mut ForeignKeyStorage<'_, LabelMap>,
    ) -> (loaded: Result<(), DatabaseError>)
        ensures
            exists|storage: &mut ForeignKeyStorage<'_, LabelMap>|
                {
                    &&& #[trigger] call_ensures(
                        ForeignKeyStorage::<'_, LabelMap>::add::<Category>,
                        (storage,),
                        loaded,
                    )
                    &&& *storage == *old(foreign_keys)
                    &&& *final(storage) == *final(foreign_keys)
                },
    {
        let loaded = foreign_keys.add::<Category>();
        assert(Self::required_tables() == seq![Category::table_name_spec()]);
        loaded
    }

    fn generate_table_row(
        entry: &Record<Account>,
        foreign_keys: &ForeignKeyStorage<'_, LabelMap>,
    ) -> (row: Vec<String>) {
        let mut row: Vec<String> = Vec::new();
        let mut code: Vec<char> = Vec::new();
        push_u64(&mut code, entry.value.code as u64);
        row.push(from_chars(&code));
        row.push(label_or_key(foreign_keys, entry.value.category, entry.value.category));
        row.push(entry.value.description.clone());
        assert(texts(row@) =~= Self::table_row(*entry, *foreign_keys));
        row
    }
}

} // verus!
