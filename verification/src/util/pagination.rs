//! The validated description of one page of a sorted listing.
use vstd::prelude::*;

use crate::database::schema::names_view;
use crate::database::traits::Sortable;
use crate::text::{from_chars, nat_text, push_str, push_u64, same_text, to_chars};

verus! {

/// The number of rows on a page, never more than one hundred.
#[derive(Debug, Clone, Copy, PartialEq, Eq, PartialOrd, Ord)]
pub struct Limit(usize);

/// The largest number of rows on a page.
pub const MAXIMUM_LIMIT: usize = 100;

/// The number of rows on a page where none is asked for.
pub const DEFAULT_LIMIT: usize = 10;

impl Limit {
    #[verifier::type_invariant]
    spec fn bounded(self) -> bool {
        self.0 <= MAXIMUM_LIMIT
    }

    /// The number of rows.
    pub closed spec fn value(self) -> nat {
        self.0 as nat
    }

    /// The limit of `value` rows, or of the maximum where `value` is more.
    pub fn from(value: usize) -> (limit: Limit)
        ensures
            limit.value() == if value <= MAXIMUM_LIMIT { value } else { MAXIMUM_LIMIT },
    {
        if value <= MAXIMUM_LIMIT {
            Limit(value)
        } else {
            Limit(MAXIMUM_LIMIT)
        }
    }

    /// The largest limit.
    pub fn maximum() -> (limit: Limit)
        ensures
            limit.value() == MAXIMUM_LIMIT,
    {
        Limit(MAXIMUM_LIMIT)
    }

    /// The number of rows.
    pub fn get(&self) -> (value: usize)
        ensures
            value == self.value(),
            value <= MAXIMUM_LIMIT,
    {
        proof {
            use_type_invariant(self);
        }
        self.0
    }
}

/// Another name of [`Limit`].
pub type Length = Limit;

impl Default for Limit {
    /// The limit that is used where none is asked for.
    fn default() -> (limit: Limit)
        ensures
            limit.value() == DEFAULT_LIMIT,
    {
        Limit(DEFAULT_LIMIT)
    }
}

/// Why a page cannot be described.
#[derive(Debug, Clone, Copy, PartialEq, Eq, Structural)]
pub enum PaginationError {
    /// The rows cannot be sorted by a column of that name.
    InvalidColumn,
}

impl PaginationError {
    /// The text of the error.
    pub fn to_string(&self) -> (text: String)
        ensures
            text@ == "The selected column does not exist"@,
    {
        "The selected column does not exist".to_owned()
    }
}

/// The order in which the rows are sorted.
#[derive(Debug, Clone, Copy, PartialEq, Eq, Structural)]
pub enum Order {
    /// The smallest value comes first.
    Ascending,
    /// The largest value comes first.
    Descending,
}

impl Order {
    /// The SQL keyword of the order.
    pub open spec fn keyword(self) -> Seq<char> {
        match self {
            Order::Ascending => "ASC"@,
            Order::Descending => "DESC"@,
        }
    }

    /// The SQL keyword of the order: `ASC` or `DESC`.
    pub fn as_str(&self) -> (keyword: &'static str)
        ensures
            keyword@ == self.keyword(),
    {
        match self {
            Order::Ascending => "ASC",
            Order::Descending => "DESC",
        }
    }

}

/// The small letter for a capital letter of the alphabet of ASCII, and any
/// other character as it is.
pub open spec fn lowered(c: char) -> char {
    if 'A' <= c <= 'Z' {
        ((c as u8 + 32) as u8) as char
    } else {
        c
    }
}

/// A text with every capital letter of ASCII made small.
pub open spec fn lower_text(text: Seq<char>) -> Seq<char> {
    text.map_values(|c: char| lowered(c))
}

/// The order that a word names: `asc` or `desc`, in small or capital
/// letters.
pub open spec fn order_of(word: Seq<char>) -> Option<Order> {
    if lower_text(word) == "asc"@ {
        Some(Order::Ascending)
    } else if lower_text(word) == "desc"@ {
        Some(Order::Descending)
    } else {
        None
    }
}

impl Order {
    /// The order that a word names: `asc` or `desc`, in small or capital
    /// letters.
    pub fn parse(word: &str) -> (order: Option<Order>)
        ensures
            order == order_of(word@),
    {
        let chars = to_chars(word);
        let mut lower: Vec<char> = Vec::new();
        let mut i: usize = 0;
        while i < chars.len()
            invariant
                i <= chars.len(),
                lower@ == lower_text(chars@.subrange(0, i as int)),
            decreases chars.len() - i,
        {
            let c = chars[i];
            let small = if c >= 'A' && c <= 'Z' {
                ((c as u8) + 32) as char
            } else {
                c
            };
            lower.push(small);
            assert(lower@ =~= lower_text(chars@.subrange(0, i + 1)));
            i += 1;
        }
        assert(chars@.subrange(0, i as int) == chars@);
        if same_text(&lower, &to_chars("asc")) {
            Some(Order::Ascending)
        } else if same_text(&lower, &to_chars("desc")) {
            Some(Order::Descending)
        } else {
            None
        }
    }
}

impl Default for Order {
    /// The order that is used where none is asked for: largest first.
    fn default() -> (order: Order)
        ensures
            order == Order::Descending,
    {
        Order::Descending
    }
}

/// The first place at which `name` stands in `names`, if it stands there.
pub open spec fn position(names: Seq<Seq<char>>, name: Seq<char>) -> Option<int> {
    if exists|i: int| 0 <= i < names.len() && names[i] == name {
        Some(
            choose|i: int|
                0 <= i < names.len() && names[i] == name && forall|j: int|
                    0 <= j < i ==> names[j] != name,
        )
    } else {
        None
    }
}

/// One of the columns by which the rows of `T` may be sorted.
#[derive(Debug, PartialEq, Eq)]
pub struct Column<T: Sortable>(usize, core::marker::PhantomData<T>);

impl<T: Sortable> Column<T> {
    #[verifier::type_invariant]
    spec fn listed(self) -> bool {
        self.0 < T::sortable_columns_spec().len()
    }

    /// The place of the column in the list of sortable columns.
    pub closed spec fn index(self) -> int {
        self.0 as int
    }

    /// The name of the column.
    pub open spec fn name(self) -> Seq<char> {
        T::sortable_columns_spec()[self.index()]
    }

    /// The name of the column, taken from the list of sortable columns.
    pub fn as_str(&self) -> (name: &'static str)
        ensures
            name@ == self.name(),
            0 <= self.index() < T::sortable_columns_spec().len(),
    {
        proof {
            use_type_invariant(self);
        }
        let names = T::sortable_columns();
        assert(names_view(names@)[self.0 as int] == names@[self.0 as int]@);
        names[self.0]
    }

    /// The sortable column of the given name: the first of that name in the
    /// list, and an error where the list holds no such name.
    pub fn try_from(column: &str) -> (found: Result<Self, PaginationError>)
        ensures
            match position(T::sortable_columns_spec(), column@) {
                Some(index) => found is Ok && found->Ok_0.index() == index,
                None => found == Err::<Self, PaginationError>(PaginationError::InvalidColumn),
            },
    {
        let names = T::sortable_columns();
        let wanted = to_chars(column);
        let ghost list = T::sortable_columns_spec();
        let mut i: usize = 0;
        while i < names.len()
            invariant
                i <= names.len(),
                list == names_view(names@),
                list == T::sortable_columns_spec(),
                wanted@ == column@,
                forall|j: int| 0 <= j < i ==> list[j] != column@,
            decreases names.len() - i,
        {
            let candidate = to_chars(names[i]);
            assert(list[i as int] == names@[i as int]@);
            if same_text(&candidate, &wanted) {
                return Ok(Column(i, core::marker::PhantomData));
            }
            i += 1;
        }
        Err(PaginationError::InvalidColumn)
    }

}

impl<T: Sortable> Default for Column<T> {
    /// The first sortable column, the key of the row.
    fn default() -> (column: Self)
        ensures
            column.index() == 0,
    {
        proof {
            T::lemma_sortable_columns();
        }
        Column(0, core::marker::PhantomData)
    }
}

impl<T: Sortable> Clone for Column<T> {
    fn clone(&self) -> (column: Self)
        ensures
            column == *self,
    {
        proof {
            use_type_invariant(self);
        }
        Column(self.0, core::marker::PhantomData)
    }
}

impl<T: Sortable> Copy for Column<T> {

}

/// One page of the rows of `T`, sorted by one of its sortable columns.
#[derive(Debug, PartialEq, Eq)]
pub struct Pagination<T: Sortable> {
    /// The number of rows that are skipped.
    pub offset: usize,
    /// The largest number of rows on the page.
    pub limit: Limit,
    /// The order of the rows.
    pub order: Order,
    /// The column by which the rows are sorted.
    pub column: Column<T>,
}

/// The clause that sorts and cuts a listing.
pub open spec fn sql_fragment(column: Seq<char>, order: Order, limit: nat, offset: nat) -> Seq<
    char,
> {
    "ORDER BY \""@ + column + "\" "@ + order.keyword() + " LIMIT "@ + nat_text(limit)
        + " OFFSET "@ + nat_text(offset)
}

/// The query part of an address that asks for a page.
pub open spec fn url_fragment(column: Seq<char>, order: Order, limit: nat, offset: nat) -> Seq<
    char,
> {
    "?column="@ + column + "&order="@ + order.keyword() + "&limit="@ + nat_text(limit)
        + "&offset="@ + nat_text(offset)
}

impl<T: Sortable> Pagination<T> {
    /// The page of `limit` rows behind the first `offset` rows, sorted by
    /// `column`. A column by which `T` cannot be sorted is refused.
    pub fn new(column: &str, offset: usize, limit: Limit, order: Order) -> (pagination: Result<
        Self,
        PaginationError,
    >)
        ensures
            match position(T::sortable_columns_spec(), column@) {
                Some(index) => pagination is Ok && pagination->Ok_0.column.index() == index
                    && pagination->Ok_0.offset == offset && pagination->Ok_0.limit == limit
                    && pagination->Ok_0.order == order,
                None => pagination == Err::<Self, PaginationError>(
                    PaginationError::InvalidColumn,
                ),
            },
    {
        match Column::try_from(column) {
            Ok(column) => Ok(Pagination { offset, limit, order, column }),
            Err(error) => Err(error),
        }
    }

    /// The page that follows where `num_received_elements` rows were
    /// received for this one: none where those are fewer than the limit or
    /// the next offset cannot be held, else the page whose offset is further
    /// on by the limit.
    pub open spec fn next_page(self, num_received_elements: usize) -> Option<Self> {
        if num_received_elements >= self.limit.value() && self.offset + self.limit.value()
            <= usize::MAX {
            Some(Pagination { offset: (self.offset + self.limit.value()) as usize, ..self })
        } else {
            None
        }
    }

    /// The page before this one: none for a page at offset zero, else the
    /// page whose offset is back by the limit, and zero at least.
    pub open spec fn previous_page(self) -> Option<Self> {
        if self.offset == 0 {
            None
        } else if self.offset >= self.limit.value() {
            Some(Pagination { offset: (self.offset - self.limit.value()) as usize, ..self })
        } else {
            Some(Pagination { offset: 0, ..self })
        }
    }

    /// The next page, if as many rows were received as the limit allows.
    pub fn next(&self, num_received_elements: usize) -> (following: Option<Self>)
        ensures
            following == self.next_page(num_received_elements),
    {
        let limit = self.limit.get();
        if num_received_elements < limit {
            return None;
        }
        match self.offset.checked_add(limit) {
            Some(offset) => Some(
                Pagination { offset, limit: self.limit, order: self.order, column: self.column },
            ),
            None => None,
        }
    }

    /// The page before this one, if this is not the first.
    pub fn previous(&self) -> (preceding: Option<Self>)
        ensures
            preceding == self.previous_page(),
    {
        if self.offset == 0 {
            return None;
        }
        let limit = self.limit.get();
        let offset = if self.offset >= limit { self.offset - limit } else { 0 };
        Some(Pagination { offset, limit: self.limit, order: self.order, column: self.column })
    }

    /// The offset behind the last row of the page.
    pub fn end_offset(&self) -> (end: usize)
        requires
            self.offset + self.limit.value() <= usize::MAX,
        ensures
            end == self.offset + self.limit.value(),
    {
        self.offset + self.limit.get()
    }

    /// The clause of the page.
    pub open spec fn sql(&self) -> Seq<char> {
        sql_fragment(self.column.name(), self.order, self.limit.value(), self.offset as nat)
    }

    /// The clause `ORDER BY "<column>" <ASC|DESC> LIMIT <n> OFFSET <m>` of
    /// the page, with the column's name from the list of sortable columns.
    pub fn display_sql(&self) -> (fragment: String)
        ensures
            fragment@ == self.sql(),
    {
        let mut out: Vec<char> = Vec::new();
        push_str(&mut out, "ORDER BY \"");
        push_str(&mut out, self.column.as_str());
        push_str(&mut out, "\" ");
        push_str(&mut out, self.order.as_str());
        push_str(&mut out, " LIMIT ");
        push_u64(&mut out, self.limit.get() as u64);
        push_str(&mut out, " OFFSET ");
        push_u64(&mut out, self.offset as u64);
        from_chars(&out)
    }

    /// The query part `?column=<column>&order=<ASC|DESC>&limit=<n>&offset=<m>`
    /// of an address that asks for the page.
    pub fn display_url(&self) -> (fragment: String)
        ensures
            fragment@ == url_fragment(
                self.column.name(),
                self.order,
                self.limit.value(),
                self.offset as nat,
            ),
    {
        let mut out: Vec<char> = Vec::new();
        push_str(&mut out, "?column=");
        push_str(&mut out, self.column.as_str());
        push_str(&mut out, "&order=");
        push_str(&mut out, self.order.as_str());
        push_str(&mut out, "&limit=");
        push_u64(&mut out, self.limit.get() as u64);
        push_str(&mut out, "&offset=");
        push_u64(&mut out, self.offset as u64);
        from_chars(&out)
    }
}

impl<T: Sortable> Default for Pagination<T> {
    /// The first page of the default size, sorted by key, largest first.
    fn default() -> (pagination: Self)
        ensures
            pagination.offset == 0,
            pagination.limit.value() == DEFAULT_LIMIT,
            pagination.order == Order::Descending,
            pagination.column.index() == 0,
    {
        Pagination {
            offset: 0,
            limit: Limit::default(),
            order: Order::default(),
            column: Column::default(),
        }
    }
}

impl<T: Sortable> Clone for Pagination<T> {
    fn clone(&self) -> (pagination: Self)
        ensures
            pagination == *self,
    {
        Pagination {
            offset: self.offset,
            limit: self.limit,
            order: self.order,
            column: self.column,
        }
    }
}

impl<T: Sortable> Copy for Pagination<T> {

}

/// Going to the next page and back gives the page from which one started,
/// unless that page is a first page of no rows.
pub proof fn lemma_next_then_previous<T: Sortable>(
    page: Pagination<T>,
    num_received_elements: usize,
)
    requires
        page.limit.value() > 0 || page.offset > 0,
        page.next_page(num_received_elements) is Some,
    ensures
        page.next_page(num_received_elements)->0.previous_page() == Some(page),
{
}

} // verus!
