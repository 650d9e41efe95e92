//! The typed identifier of a stored row and its text form.
use vstd::prelude::*;
use vstd::std_specs::convert::FromSpecImpl;

use super::traits::{path_safe, Indexable};
use crate::text::{
    from_chars, has_sign, int_text, is_digit, is_integer_text, is_separator, lemma_int_text,
    lemma_split_append, parse_i64, parse_i64_spec, push_i64, push_str, same_text, separator_free,
    split, split_at, texts, to_chars,
};

verus! {

/// The primary key of a row of `T`'s table. Keys of different types do not
/// mix, though each is no more than an integer.
#[derive(Debug, PartialEq, Eq)]
pub struct PrimaryKey<T: Indexable>(pub i64, pub core::marker::PhantomData<T>);

/// Why a text is no key of the expected table.
#[derive(Debug, Clone, Copy, PartialEq, Eq, Structural)]
pub enum ParseError {
    /// The text is no integer and does not fall into three parts at its slashes.
    InvalidFormat,
    /// The text names another table.
    TableNameMismatch,
    /// The part behind the table name is no 64-bit integer.
    ParseIntError,
}

impl ParseError {
    /// The text of the error.
    pub fn to_string(&self) -> (text: String)
        ensures
            text@ == (match self {
                ParseError::InvalidFormat => "Invalid format"@,
                ParseError::TableNameMismatch => "Table name mismatch"@,
                ParseError::ParseIntError => "Parse int error"@,
            }),
    {
        match self {
            ParseError::InvalidFormat => "Invalid format".to_owned(),
            ParseError::TableNameMismatch => "Table name mismatch".to_owned(),
            ParseError::ParseIntError => "Parse int error".to_owned(),
        }
    }
}

/// The canonical text of the key `id` of `table`: `/<table>/<id>`.
pub open spec fn key_text(table: Seq<char>, id: i64) -> Seq<char> {
    seq!['/'] + table + seq!['/'] + int_text(id as int)
}

/// What a text means as a key of `table`. A bare integer is taken as it is.
/// Any other text is cut at its slashes and must fall into three parts, the
/// second the table's name and the third an integer.
pub open spec fn parse_key(table: Seq<char>, s: Seq<char>) -> Result<i64, ParseError> {
    match parse_i64_spec(s) {
        Some(id) => Ok(id),
        None => {
            let parts = split(s, '/', '/');
            if parts.len() != 3 {
                Err(ParseError::InvalidFormat)
            } else if parts[1] != table {
                Err(ParseError::TableNameMismatch)
            } else {
                match parse_i64_spec(parts[2]) {
                    Some(id) => Ok(id),
                    None => Err(ParseError::ParseIntError),
                }
            }
        },
    }
}

impl<T: Indexable> PrimaryKey<T> {
    /// The integer behind the key.
    pub fn raw_index(&self) -> (index: i64)
        ensures
            index == self.0,
    {
        self.0
    }

    /// The canonical text of the key.
    pub open spec fn text(&self) -> Seq<char> {
        key_text(T::table_name_spec(), self.0)
    }

    /// The canonical text `/<table>/<id>` of the key.
    pub fn to_string(&self) -> (text: String)
        ensures
            text@ == self.text(),
    {
        let mut out: Vec<char> = Vec::new();
        out.push('/');
        push_str(&mut out, T::table_name());
        out.push('/');
        push_i64(&mut out, self.0);
        assert(out@ == self.text());
        from_chars(&out)
    }

    /// Read a key from a bare integer or from the canonical text.
    pub fn parse(text: &str) -> (key: Result<Self, ParseError>)
        ensures
            match parse_key(T::table_name_spec(), text@) {
                Ok(id) => key is Ok && key->Ok_0.0 == id,
                Err(error) => key == Err::<Self, ParseError>(error),
            },
    {
        let chars = to_chars(text);
        if let Some(id) = parse_i64(&chars) {
            return Ok(PrimaryKey(id, core::marker::PhantomData));
        }
        let parts = split_at(&chars, '/', '/');
        if parts.len() != 3 {
            return Err(ParseError::InvalidFormat);
        }
        assert(texts(parts@)[1] == parts@[1]@);
        assert(texts(parts@)[2] == parts@[2]@);
        let table = to_chars(T::table_name());
        if !same_text(&parts[1], &table) {
            return Err(ParseError::TableNameMismatch);
        }
        match parse_i64(&parts[2]) {
            Some(id) => Ok(PrimaryKey(id, core::marker::PhantomData)),
            None => Err(ParseError::ParseIntError),
        }
    }
}

impl<T: Indexable> Clone for PrimaryKey<T> {
    fn clone(&self) -> (key: Self)
        ensures
            key == *self,
    {
        PrimaryKey(self.0, core::marker::PhantomData)
    }
}

impl<T: Indexable> Copy for PrimaryKey<T> {

}

impl<T: Indexable> From<i64> for PrimaryKey<T> {
    fn from(value: i64) -> (key: Self) {
        PrimaryKey(value, core::marker::PhantomData)
    }
}

impl<T: Indexable> FromSpecImpl<i64> for PrimaryKey<T> {
    open spec fn obeys_from_spec() -> bool {
        true
    }

    open spec fn from_spec(value: i64) -> Self {
        PrimaryKey(value, core::marker::PhantomData)
    }
}

impl<T: Indexable> core::str::FromStr for PrimaryKey<T> {
    type Err = ParseError;

    fn from_str(text: &str) -> (key: Result<Self, ParseError>)
        ensures
            match parse_key(T::table_name_spec(), text@) {
                Ok(id) => key is Ok && key->Ok_0.0 == id,
                Err(error) => key == Err::<Self, ParseError>(error),
            },
    {
        PrimaryKey::parse(text)
    }
}

/// The pieces of a canonical text: an empty one, the table and the integer.
pub proof fn lemma_key_text_parts(table: Seq<char>, id: i64)
    requires
        path_safe(table),
    ensures
        parse_i64_spec(key_text(table, id)) is None,
        split(key_text(table, id), '/', '/') == seq![
            Seq::<char>::empty(),
            table,
            int_text(id as int),
        ],
        parse_i64_spec(int_text(id as int)) == Some(id),
{
    let digits = int_text(id as int);
    let text = key_text(table, id);
    lemma_int_text(id as int);
    assert(text[0] == '/');
    assert(!is_integer_text(text)) by {
        assert(!has_sign(text));
        assert(!is_digit(text[0]));
    }
    assert(separator_free(digits, '/', '/')) by {
        assert forall|i: int| 0 <= i < digits.len() implies !is_separator(
            #[trigger] digits[i],
            '/',
            '/',
        ) by {
            if id < 0 {
                if i > 0 {
                    crate::text::lemma_nat_text((-(id as int)) as nat);
                    assert(digits[i] == crate::text::nat_text((-(id as int)) as nat)[i - 1]);
                    assert(is_digit(crate::text::nat_text((-(id as int)) as nat)[i - 1]));
                }
            } else {
                crate::text::lemma_nat_text(id as nat);
                assert(is_digit(crate::text::nat_text(id as nat)[i]));
            }
        }
    }
    let empty = Seq::<char>::empty();
    assert(seq!['/'] + table == empty.push('/') + table);
    lemma_split_append(empty, '/', table, '/', '/');
    let head = seq!['/'] + table;
    assert(split(head, '/', '/') == seq![empty, table]);
    assert(text == head.push('/') + digits);
    lemma_split_append(head, '/', digits, '/', '/');
    assert(split(text, '/', '/') == seq![empty, table].push(digits));
}

/// Reading the text written for a key gives the key back.
pub proof fn lemma_key_round_trip<T: Indexable>(key: PrimaryKey<T>)
    ensures
        parse_key(T::table_name_spec(), key.text()) == Ok::<i64, ParseError>(key.0),
{
    T::lemma_table_name();
    lemma_key_text_parts(T::table_name_spec(), key.0);
}

/// The text written for a key of one table is refused as a key of a table
/// with another name, whatever the integer.
pub proof fn lemma_key_of_other_table<T: Indexable, U: Indexable>(key: PrimaryKey<U>)
    requires
        T::table_name_spec() != U::table_name_spec(),
    ensures
        parse_key(T::table_name_spec(), key.text()) == Err::<i64, ParseError>(
            ParseError::TableNameMismatch,
        ),
{
    U::lemma_table_name();
    lemma_key_text_parts(U::table_name_spec(), key.0);
}

} // verus!
