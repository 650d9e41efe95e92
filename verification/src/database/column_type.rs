//! How the values of a type are held in one column of a table.
use vstd::prelude::*;

use super::primary_key::PrimaryKey;
use super::traits::Indexable;
use super::value::{SqlValue, SqlValueView};
use crate::text::{from_chars, push_str};

verus! {

/// The declaration of a column that holds values of the raw type `raw`:
/// the raw type alone where the column may be empty, and the raw type with
/// `NOT NULL` where it may not.
pub open spec fn column_declaration(raw: Seq<char>, nullable: bool) -> Seq<char> {
    if nullable {
        raw
    } else {
        raw + " NOT NULL"@
    }
}

/// How the values of a type are held in one column of a table.
pub trait DatabaseType: Sized {
    /// The SQL type of the column.
    spec fn raw_column_value_spec() -> Seq<char>;

    /// Whether the column may be empty.
    spec fn nullable_spec() -> bool;

    /// Whether it makes sense to sort rows by the column.
    spec fn is_sortable_spec() -> bool;

    /// The stored form of a value, where it can be stored.
    spec fn encode(&self) -> Option<SqlValueView>;

    /// Whether a stored value can be read as this type.
    spec fn accepts(value: SqlValueView) -> bool;

    /// Whether `item` is what the stored value `value` reads as.
    spec fn decodes(value: SqlValueView, item: Self) -> bool;

    /// The SQL type of the column.
    fn raw_column_value() -> (raw: &'static str)
        ensures
            raw@ == Self::raw_column_value_spec(),
    ;

    /// Whether the column may be empty.
    fn nullable() -> (nullable: bool)
        ensures
            nullable == Self::nullable_spec(),
    ;

    /// Whether it makes sense to sort rows by the column.
    fn is_sortable() -> (sortable: bool)
        ensures
            sortable == Self::is_sortable_spec(),
    ;

    /// The declaration of the column in a `CREATE TABLE` statement.
    fn column_value() -> (declaration: String)
        ensures
            declaration@ == column_declaration(
                Self::raw_column_value_spec(),
                Self::nullable_spec(),
            ),
    {
        let mut out: Vec<char> = Vec::new();
        push_str(&mut out, Self::raw_column_value());
        if !Self::nullable() {
            push_str(&mut out, " NOT NULL");
        }
        from_chars(&out)
    }

    /// The stored form of the value, or nothing where it cannot be stored.
    fn to_sql(&self) -> (value: Option<SqlValue>)
        ensures
            value is Some <==> self.encode() is Some,
            value is Some ==> value->0@ == self.encode()->0,
    ;

    /// Read a stored value, or nothing where it is no value of this type.
    fn from_sql(value: &SqlValue) -> (item: Option<Self>)
        ensures
            item is Some <==> Self::accepts(value@),
            item is Some ==> Self::decodes(value@, item->0),
    ;

    /// What was stored for a value reads back as that value.
    proof fn lemma_stored(self)
        ensures
            self.encode() is Some ==> Self::accepts(self.encode()->0) && Self::decodes(
                self.encode()->0,
                self,
            ),
    ;
}

impl DatabaseType for bool {
    open spec fn raw_column_value_spec() -> Seq<char> {
        "BOOL"@
    }

    open spec fn nullable_spec() -> bool {
        false
    }

    open spec fn is_sortable_spec() -> bool {
        false
    }

    /// A truth value is stored as 1 or 0, and any integer but 0 reads as true.
    open spec fn encode(&self) -> Option<SqlValueView> {
        Some(SqlValueView::Integer(if *self { 1i64 } else { 0i64 }))
    }

    open spec fn accepts(value: SqlValueView) -> bool {
        value is Integer
    }

    open spec fn decodes(value: SqlValueView, item: bool) -> bool {
        value is Integer && item == (value->Integer_0 != 0)
    }

    fn raw_column_value() -> (raw: &'static str) {
        "BOOL"
    }

    fn nullable() -> (nullable: bool) {
        false
    }

    fn is_sortable() -> (sortable: bool) {
        false
    }

    fn to_sql(&self) -> (value: Option<SqlValue>) {
        Some(SqlValue::Integer(if *self { 1 } else { 0 }))
    }

    fn from_sql(value: &SqlValue) -> (item: Option<bool>) {
        match value {
            SqlValue::Integer(i) => Some(*i != 0),
            _ => None,
        }
    }

    proof fn lemma_stored(self) {
    }
}

impl DatabaseType for u32 {
    open spec fn raw_column_value_spec() -> Seq<char> {
        "INTEGER"@
    }

    open spec fn nullable_spec() -> bool {
        false
    }

    open spec fn is_sortable_spec() -> bool {
        true
    }

    open spec fn encode(&self) -> Option<SqlValueView> {
        Some(SqlValueView::Integer(*self as i64))
    }

    open spec fn accepts(value: SqlValueView) -> bool {
        value is Integer && 0 <= value->Integer_0 <= u32::MAX
    }

    open spec fn decodes(value: SqlValueView, item: u32) -> bool {
        value is Integer && item == value->Integer_0
    }

    fn raw_column_value() -> (raw: &'static str) {
        "INTEGER"
    }

    fn nullable() -> (nullable: bool) {
        false
    }

    fn is_sortable() -> (sortable: bool) {
        true
    }

    fn to_sql(&self) -> (value: Option<SqlValue>) {
        Some(SqlValue::Integer(*self as i64))
    }

    fn from_sql(value: &SqlValue) -> (item: Option<u32>) {
        match value {
            SqlValue::Integer(i) => if 0 <= *i && *i <= 4294967295 {
                Some(*i as u32)
            } else {
                None
            },
            _ => None,
        }
    }

    proof fn lemma_stored(self) {
    }
}

impl DatabaseType for String {
    open spec fn raw_column_value_spec() -> Seq<char> {
        "TEXT"@
    }

    open spec fn nullable_spec() -> bool {
        false
    }

    open spec fn is_sortable_spec() -> bool {
        false
    }

    open spec fn encode(&self) -> Option<SqlValueView> {
        Some(SqlValueView::Text(self@))
    }

    open spec fn accepts(value: SqlValueView) -> bool {
        value is Text
    }

    open spec fn decodes(value: SqlValueView, item: String) -> bool {
        value is Text && item@ == value->Text_0
    }

    fn raw_column_value() -> (raw: &'static str) {
        "TEXT"
    }

    fn nullable() -> (nullable: bool) {
        false
    }

    fn is_sortable() -> (sortable: bool) {
        false
    }

    fn to_sql(&self) -> (value: Option<SqlValue>) {
        Some(SqlValue::Text(self.clone()))
    }

    fn from_sql(value: &SqlValue) -> (item: Option<String>) {
        match value {
            SqlValue::Text(text) => Some(text.clone()),
            _ => None,
        }
    }

    proof fn lemma_stored(self) {
    }
}

impl DatabaseType for Vec<u8> {
    open spec fn raw_column_value_spec() -> Seq<char> {
        "BLOB"@
    }

    open spec fn nullable_spec() -> bool {
        false
    }

    open spec fn is_sortable_spec() -> bool {
        false
    }

    open spec fn encode(&self) -> Option<SqlValueView> {
        Some(SqlValueView::Blob(self@))
    }

    open spec fn accepts(value: SqlValueView) -> bool {
        value is Blob
    }

    open spec fn decodes(value: SqlValueView, item: Vec<u8>) -> bool {
        value is Blob && item@ == value->Blob_0
    }

    fn raw_column_value() -> (raw: &'static str) {
        "BLOB"
    }

    fn nullable() -> (nullable: bool) {
        false
    }

    fn is_sortable() -> (sortable: bool) {
        false
    }

    fn to_sql(&self) -> (value: Option<SqlValue>) {
        Some(SqlValue::Blob(self.clone()))
    }

    fn from_sql(value: &SqlValue) -> (item: Option<Vec<u8>>) {
        match value {
            SqlValue::Blob(bytes) => Some(bytes.clone()),
            _ => None,
        }
    }

    proof fn lemma_stored(self) {
    }
}

impl<T: Indexable> DatabaseType for PrimaryKey<T> {
    open spec fn raw_column_value_spec() -> Seq<char> {
        "INTEGER"@
    }

    open spec fn nullable_spec() -> bool {
        false
    }

    open spec fn is_sortable_spec() -> bool {
        true
    }

    open spec fn encode(&self) -> Option<SqlValueView> {
        Some(SqlValueView::Integer(self.0))
    }

    open spec fn accepts(value: SqlValueView) -> bool {
        value is Integer
    }

    open spec fn decodes(value: SqlValueView, item: PrimaryKey<T>) -> bool {
        value is Integer && item.0 == value->Integer_0
    }

    fn raw_column_value() -> (raw: &'static str) {
        "INTEGER"
    }

    fn nullable() -> (nullable: bool) {
        false
    }

    fn is_sortable() -> (sortable: bool) {
        true
    }

    fn to_sql(&self) -> (value: Option<SqlValue>) {
        Some(SqlValue::Integer(self.0))
    }

    fn from_sql(value: &SqlValue) -> (item: Option<PrimaryKey<T>>) {
        match value {
            SqlValue::Integer(i) => Some(PrimaryKey(*i, core::marker::PhantomData)),
            _ => None,
        }
    }

    proof fn lemma_stored(self) {
    }
}

impl<T: DatabaseType> DatabaseType for Option<T> {
    open spec fn raw_column_value_spec() -> Seq<char> {
        T::raw_column_value_spec()
    }

    open spec fn nullable_spec() -> bool {
        true
    }

    open spec fn is_sortable_spec() -> bool {
        false
    }

    /// Nothing is stored as `NULL`, and a value as the value itself. A value
    /// whose own stored form is `NULL` cannot be stored: it would read back as
    /// nothing.
    open spec fn encode(&self) -> Option<SqlValueView> {
        match self {
            None => Some(SqlValueView::Null),
            Some(item) => if item.encode() == Some(SqlValueView::Null) {
                None
            } else {
                item.encode()
            },
        }
    }

    open spec fn accepts(value: SqlValueView) -> bool {
        value is Null || T::accepts(value)
    }

    open spec fn decodes(value: SqlValueView, item: Option<T>) -> bool {
        if value is Null {
            item is None
        } else {
            item is Some && T::decodes(value, item->0)
        }
    }

    fn raw_column_value() -> (raw: &'static str) {
        T::raw_column_value()
    }

    fn nullable() -> (nullable: bool) {
        true
    }

    fn is_sortable() -> (sortable: bool) {
        false
    }

    fn to_sql(&self) -> (value: Option<SqlValue>) {
        match self {
            None => Some(SqlValue::Null),
            Some(item) => match item.to_sql() {
                Some(SqlValue::Null) => None,
                value => value,
            },
        }
    }

    fn from_sql(value: &SqlValue) -> (item: Option<Option<T>>) {
        match value {
            SqlValue::Null => Some(None),
            _ => match T::from_sql(value) {
                Some(item) => Some(Some(item)),
                None => None,
            },
        }
    }

    proof fn lemma_stored(self) {
        match self {
            None => {},
            Some(item) => {
                item.lemma_stored();
            },
        }
    }
}

} // verus!
