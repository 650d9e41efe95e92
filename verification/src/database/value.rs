//! The values that a column of the store can hold.
use vstd::prelude::*;

verus! {

/// One value of a row, as the store hands it out or takes it in.
#[derive(Debug, Clone, PartialEq, Eq)]
pub enum SqlValue {
    /// No value.
    Null,
    /// A signed integer.
    Integer(i64),
    /// A floating point number, which no column of this library holds. It is
    /// read without its value and cannot be bound to a statement.
    Real,
    /// A text.
    Text(String),
    /// A sequence of bytes.
    Blob(Vec<u8>),
}

/// The mathematical model of a [`SqlValue`].
pub enum SqlValueView {
    Null,
    Integer(i64),
    Real,
    Text(Seq<char>),
    Blob(Seq<u8>),
}

impl View for SqlValue {
    type V = SqlValueView;

    open spec fn view(&self) -> SqlValueView {
        match self {
            SqlValue::Null => SqlValueView::Null,
            SqlValue::Integer(i) => SqlValueView::Integer(*i),
            SqlValue::Real => SqlValueView::Real,
            SqlValue::Text(text) => SqlValueView::Text(text@),
            SqlValue::Blob(bytes) => SqlValueView::Blob(bytes@),
        }
    }
}

/// The model of a row: the model of each of its values, in order.
pub open spec fn row_view(row: Seq<SqlValue>) -> Seq<SqlValueView> {
    row.map_values(|value: SqlValue| value@)
}

/// Whether every value of `params` can be bound to a statement: none of
/// them is a floating point number.
pub open spec fn bindable(params: Seq<SqlValueView>) -> bool {
    forall|i: int| 0 <= i < params.len() ==> !((#[trigger] params[i]) is Real)
}

/// Whether every value of `params` can be bound to a statement.
pub fn all_bindable(params: &Vec<SqlValue>) -> (yes: bool)
    ensures
        yes == bindable(row_view(params@)),
{
    let mut i: usize = 0;
    while i < params.len()
        invariant
            i <= params.len(),
            forall|k: int| 0 <= k < i ==> !((#[trigger] row_view(params@)[k]) is Real),
        decreases params.len() - i,
    {
        if let SqlValue::Real = &params[i] {
            assert(row_view(params@)[i as int] is Real);
            return false;
        }
        i += 1;
    }
    true
}

} // verus!
