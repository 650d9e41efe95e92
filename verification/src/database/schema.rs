//! The statements of a table, made from the list of its columns.
use vstd::prelude::*;

use super::column_type::{column_declaration, DatabaseType};
use crate::text::{from_chars, push_str};

verus! {

/// One column of a table, as it is declared.
#[derive(Debug, Clone, PartialEq, Eq)]
pub struct Column {
    /// The name of the column.
    pub name: &'static str,
    /// The SQL type of the column, with `NOT NULL` where it may not be empty.
    pub declaration: String,
    /// Whether rows may be sorted by the column.
    pub sortable: bool,
}

/// The mathematical model of a [`Column`].
pub struct ColumnView {
    pub name: Seq<char>,
    pub declaration: Seq<char>,
    pub sortable: bool,
}

impl View for Column {
    type V = ColumnView;

    open spec fn view(&self) -> ColumnView {
        ColumnView { name: self.name@, declaration: self.declaration@, sortable: self.sortable }
    }
}

/// The models of a list of columns.
pub open spec fn columns_view(columns: Seq<Column>) -> Seq<ColumnView> {
    columns.map_values(|column: Column| column@)
}

/// The column `name` that holds values of `T`.
pub open spec fn column_of<T: DatabaseType>(name: Seq<char>) -> ColumnView {
    ColumnView {
        name,
        declaration: column_declaration(T::raw_column_value_spec(), T::nullable_spec()),
        sortable: T::is_sortable_spec(),
    }
}

impl Column {
    /// The column `name` that holds values of `T`.
    pub fn new<T: DatabaseType>(name: &'static str) -> (column: Column)
        ensures
            column@ == column_of::<T>(name@),
    {
        Column { name, declaration: T::column_value(), sortable: T::is_sortable() }
    }
}

/// The names of the columns, each behind a comma: `, a, b, c`.
pub open spec fn listed_names(columns: Seq<ColumnView>) -> Seq<char>
    decreases columns.len(),
{
    if columns.len() == 0 {
        Seq::<char>::empty()
    } else {
        listed_names(columns.drop_last()) + ", "@ + columns.last().name
    }
}

/// The names of the columns with commas between them: `a, b, c`.
pub open spec fn joined_names(columns: Seq<ColumnView>) -> Seq<char> {
    if columns.len() == 0 {
        Seq::<char>::empty()
    } else {
        columns[0].name + listed_names(columns.subrange(1, columns.len() as int))
    }
}

/// As many question marks as there are columns, with commas between them.
pub open spec fn placeholders(count: nat) -> Seq<char>
    decreases count,
{
    if count == 0 {
        Seq::<char>::empty()
    } else if count == 1 {
        "?"@
    } else {
        placeholders((count - 1) as nat) + ", ?"@
    }
}

/// The declarations of the columns, each behind a comma:
/// `, a TEXT NOT NULL, b INTEGER`.
pub open spec fn listed_declarations(columns: Seq<ColumnView>) -> Seq<char>
    decreases columns.len(),
{
    if columns.len() == 0 {
        Seq::<char>::empty()
    } else {
        listed_declarations(columns.drop_last()) + ", "@ + columns.last().name + " "@
            + columns.last().declaration
    }
}

/// The statement that creates a table, unless it exists: an integer primary
/// key `id`, then the columns, then the additional conditions, if any.
pub open spec fn create_table_text(
    table: Seq<char>,
    columns: Seq<ColumnView>,
    conditions: Option<Seq<char>>,
) -> Seq<char> {
    "CREATE TABLE IF NOT EXISTS "@ + table + " (id INTEGER PRIMARY KEY"@ + listed_declarations(
        columns,
    ) + (match conditions {
        Some(text) => ", "@ + text + " "@,
        None => Seq::<char>::empty(),
    }) + " )"@
}

/// The statement that inserts one row, with a placeholder for each column.
pub open spec fn insert_text(table: Seq<char>, columns: Seq<ColumnView>) -> Seq<char> {
    "INSERT INTO "@ + table + " ("@ + joined_names(columns) + ") VALUES ("@ + placeholders(
        columns.len(),
    ) + ")"@
}

/// The statement that selects the key and every column of every row.
pub open spec fn select_all_text(table: Seq<char>, columns: Seq<ColumnView>) -> Seq<char> {
    "SELECT id"@ + listed_names(columns) + " FROM "@ + table
}

/// The statement that selects the row of one key.
pub open spec fn select_text(select_all: Seq<char>) -> Seq<char> {
    select_all + " WHERE id = ?"@
}

/// The statement that selects the key and the describing expression of
/// every row.
pub open spec fn select_name_text(table: Seq<char>, description: Seq<char>) -> Seq<char> {
    "SELECT id, "@ + description + " FROM "@ + table
}

/// The names by which the rows of a table may be sorted: `id` first, then
/// for each column its name where it is sortable and `id` where it is not.
pub open spec fn sortable_names(columns: Seq<ColumnView>) -> Seq<Seq<char>>
    decreases columns.len(),
{
    if columns.len() == 0 {
        seq!["id"@]
    } else {
        sortable_names(columns.drop_last()).push(
            if columns.last().sortable {
                columns.last().name
            } else {
                "id"@
            },
        )
    }
}

/// There is one sortable name for the key and one for each column.
pub proof fn lemma_sortable_names(columns: Seq<ColumnView>)
    ensures
        sortable_names(columns).len() == columns.len() + 1,
    decreases columns.len(),
{
    if columns.len() > 0 {
        lemma_sortable_names(columns.drop_last());
    }
}

/// The models of a list of names.
pub open spec fn names_view(names: Seq<&'static str>) -> Seq<Seq<char>> {
    names.map_values(|name: &'static str| name@)
}

/// The statement that creates the table `table` with the given columns.
pub fn create_table_statement(
    table: &str,
    columns: &Vec<Column>,
    conditions: Option<&str>,
) -> (statement: String)
    ensures
        statement@ == create_table_text(
            table@,
            columns_view(columns@),
            match conditions {
                Some(text) => Some(text@),
                None => None,
            },
        ),
{
    let mut out: Vec<char> = Vec::new();
    push_str(&mut out, "CREATE TABLE IF NOT EXISTS ");
    push_str(&mut out, table);
    push_str(&mut out, " (id INTEGER PRIMARY KEY");
    let ghost head = out@;
    let mut i: usize = 0;
    assert(columns_view(columns@).subrange(0, 0).len() == 0);
    assert(out@ == head + listed_declarations(columns_view(columns@).subrange(0, 0)));
    while i < columns.len()
        invariant
            i <= columns.len(),
            out@ == head + listed_declarations(columns_view(columns@).subrange(0, i as int)),
        decreases columns.len() - i,
    {
        let ghost next = columns_view(columns@).subrange(0, i + 1);
        assert(next.drop_last() == columns_view(columns@).subrange(0, i as int));
        assert(next.last() == columns@[i as int]@);
        push_str(&mut out, ", ");
        push_str(&mut out, columns[i].name);
        push_str(&mut out, " ");
        push_str(&mut out, columns[i].declaration.as_str());
        i += 1;
        assert(out@ == head + listed_declarations(next));
    }
    assert(columns_view(columns@).subrange(0, i as int) == columns_view(columns@));
    if let Some(text) = conditions {
        push_str(&mut out, ", ");
        push_str(&mut out, text);
        push_str(&mut out, " ");
    }
    push_str(&mut out, " )");
    from_chars(&out)
}

/// Append the names of the columns, each behind a comma.
fn push_listed_names(out: &mut Vec<char>, columns: &Vec<Column>, from: usize)
    requires
        from <= columns.len(),
    ensures
        final(out)@ == old(out)@ + listed_names(
            columns_view(columns@).subrange(from as int, columns.len() as int),
        ),
{
    let ghost head = out@;
    let ghost rest = columns_view(columns@).subrange(from as int, columns.len() as int);
    let mut i: usize = from;
    assert(rest.subrange(0, 0).len() == 0);
    assert(out@ == head + listed_names(rest.subrange(0, 0)));
    while i < columns.len()
        invariant
            from <= i <= columns.len(),
            rest == columns_view(columns@).subrange(from as int, columns.len() as int),
            out@ == head + listed_names(rest.subrange(0, i - from)),
        decreases columns.len() - i,
    {
        let ghost next = rest.subrange(0, i - from + 1);
        assert(next.drop_last() == rest.subrange(0, i - from));
        assert(next.last() == columns@[i as int]@);
        push_str(out, ", ");
        push_str(out, columns[i].name);
        i += 1;
        assert(out@ == head + listed_names(next));
    }
    assert(rest.subrange(0, i - from) == rest);
}

/// The statement that inserts one row into `table`.
pub fn insert_statement(table: &str, columns: &Vec<Column>) -> (statement: String)
    ensures
        statement@ == insert_text(table@, columns_view(columns@)),
{
    let mut out: Vec<char> = Vec::new();
    push_str(&mut out, "INSERT INTO ");
    push_str(&mut out, table);
    push_str(&mut out, " (");
    if columns.len() > 0 {
        push_str(&mut out, columns[0].name);
        push_listed_names(&mut out, columns, 1);
    }
    push_str(&mut out, ") VALUES (");
    let ghost head = out@;
    let mut i: usize = 0;
    while i < columns.len()
        invariant
            i <= columns.len(),
            out@ == head + placeholders(i as nat),
        decreases columns.len() - i,
    {
        if i == 0 {
            push_str(&mut out, "?");
        } else {
            push_str(&mut out, ", ?");
        }
        i += 1;
    }
    push_str(&mut out, ")");
    from_chars(&out)
}

/// The statement that selects every row of `table`.
pub fn select_all_statement(table: &str, columns: &Vec<Column>) -> (statement: String)
    ensures
        statement@ == select_all_text(table@, columns_view(columns@)),
{
    let mut out: Vec<char> = Vec::new();
    push_str(&mut out, "SELECT id");
    push_listed_names(&mut out, columns, 0);
    assert(columns_view(columns@).subrange(0, columns.len() as int) == columns_view(columns@));
    push_str(&mut out, " FROM ");
    push_str(&mut out, table);
    from_chars(&out)
}

/// The statement that selects the row of one key, made from the statement
/// that selects every row.
pub fn select_statement(select_all: &str) -> (statement: String)
    ensures
        statement@ == select_text(select_all@),
{
    let mut out: Vec<char> = Vec::new();
    push_str(&mut out, select_all);
    push_str(&mut out, " WHERE id = ?");
    from_chars(&out)
}

/// The statement that selects the key and the describing expression
/// `description` of every row of `table`.
pub fn select_name_statement(table: &str, description: &str) -> (statement: String)
    ensures
        statement@ == select_name_text(table@, description@),
{
    let mut out: Vec<char> = Vec::new();
    push_str(&mut out, "SELECT id, ");
    push_str(&mut out, description);
    push_str(&mut out, " FROM ");
    push_str(&mut out, table);
    from_chars(&out)
}

/// The names by which the rows of a table with these columns may be sorted.
pub fn sortable_columns(columns: &Vec<Column>) -> (names: Vec<&'static str>)
    ensures
        names_view(names@) == sortable_names(columns_view(columns@)),
{
    let mut names: Vec<&'static str> = Vec::new();
    names.push("id");
    let mut i: usize = 0;
    assert(columns_view(columns@).subrange(0, 0).len() == 0);
    assert(names_view(names@) == seq!["id"@]);
    while i < columns.len()
        invariant
            i <= columns.len(),
            names_view(names@) == sortable_names(columns_view(columns@).subrange(0, i as int)),
        decreases columns.len() - i,
    {
        let ghost next = columns_view(columns@).subrange(0, i + 1);
        let ghost before = names_view(names@);
        assert(next.drop_last() == columns_view(columns@).subrange(0, i as int));
        assert(next.last() == columns@[i as int]@);
        if columns[i].sortable {
            names.push(columns[i].name);
        } else {
            names.push("id");
        }
        assert(names_view(names@) == before.push(names@.last()@));
        i += 1;
    }
    assert(columns_view(columns@).subrange(0, i as int) == columns_view(columns@));
    names
}

} // verus!
