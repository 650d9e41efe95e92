//! Money as a whole number of minor units, with its exact decimal text.
use vstd::math::abs;
use vstd::prelude::*;
use vstd::std_specs::ops::{AddSpecImpl, SubSpecImpl};

use crate::database::column_type::DatabaseType;
use crate::database::value::{SqlValue, SqlValueView};
use crate::text::{
    all_digits, digit_char, digit_value, digits_value, from_chars, has_sign,
    integer_text_value, is_digit, is_integer_text, lemma_nat_text,
    lemma_split_append, lemma_split_plain, magnitude, nat_text, parse_i64, parse_i64_spec, push_u64,
    separator_free, split, split_at, to_chars, unsigned_part,
};

verus! {

/// An amount of money with two digits behind the decimal separator, held as
/// a count of minor units.
#[derive(Debug, Clone, Copy, PartialEq, Eq, PartialOrd, Ord, Structural)]
pub struct Amount(pub i64);

/// Why a text or a pair of numbers is no amount of money.
#[derive(Debug, Clone, Copy, PartialEq, Eq, Structural)]
pub enum AmountError {
    /// The fraction has more than two digits or is not between 0 and 99.
    FractionTooLarge,
    /// The text holds more than one decimal separator.
    DecimalSeparatorIncluded,
    /// A part is no number, or the amount does not fit into 64 bits.
    InvalidNumber,
}

impl AmountError {
    /// The text of the error.
    pub fn to_string(&self) -> (text: String)
        ensures
            text@ == (match self {
                AmountError::FractionTooLarge =>
                    "The fractional component has more than two digits"@,
                AmountError::DecimalSeparatorIncluded =>
                    "There are more than two seperated blocks in the value"@,
                AmountError::InvalidNumber => "The provided numbers are invalid"@,
            }),
    {
        match self {
            AmountError::FractionTooLarge => {
                "The fractional component has more than two digits".to_owned()
            },
            AmountError::DecimalSeparatorIncluded => {
                "There are more than two seperated blocks in the value".to_owned()
            },
            AmountError::InvalidNumber => "The provided numbers are invalid".to_owned(),
        }
    }
}

/// Whether `units` minor units can be held.
pub open spec fn representable(units: int) -> bool {
    i64::MIN <= units <= i64::MAX
}

/// The amount of `integer_part` major and `fractional_part` minor units.
pub open spec fn compose(integer_part: int, fractional_part: int) -> Result<Amount, AmountError> {
    if !(0 <= fractional_part < 100) {
        Err(AmountError::FractionTooLarge)
    } else if !representable(integer_part * 100 + fractional_part) {
        Err(AmountError::InvalidNumber)
    } else {
        Ok(Amount((integer_part * 100 + fractional_part) as i64))
    }
}

/// The amount whose magnitude is `whole` major and `fractional_part` minor
/// units, below zero where `negative` is set. A fraction outside 0 to 99 is
/// refused, and so is an amount that does not fit.
pub open spec fn signed_amount(negative: bool, whole: nat, fractional_part: int) -> Result<
    Amount,
    AmountError,
> {
    let units = whole * 100 + fractional_part;
    let value = if negative { -units } else { units };
    if !(0 <= fractional_part < 100) {
        Err(AmountError::FractionTooLarge)
    } else if !representable(value) {
        Err(AmountError::InvalidNumber)
    } else {
        Ok(Amount(value as i64))
    }
}

/// The amount of `whole` major units with the fraction text `fraction`
/// behind the separator: the fraction is an integer text of at most two
/// digits that stands for a number from 0 to 99.
pub open spec fn with_fraction(negative: bool, whole: nat, fraction: Seq<char>) -> Result<
    Amount,
    AmountError,
> {
    if !is_integer_text(fraction) {
        Err(AmountError::InvalidNumber)
    } else if unsigned_part(fraction).len() > 2 {
        Err(AmountError::FractionTooLarge)
    } else {
        signed_amount(negative, whole, integer_text_value(fraction))
    }
}

/// Whether a text starts with a minus sign.
pub open spec fn starts_negative(s: Seq<char>) -> bool {
    s.len() > 0 && s[0] == '-'
}

/// What a text means as an amount. The text is cut at every `,` and `.`:
/// more than two pieces are refused, the first piece is the integer part and
/// the second, if there is one, the fraction. The sign is the sign that the
/// text starts with, so that `-0.50` is half a unit below zero; the
/// magnitude is that of the integer part in major units plus the fraction in
/// minor units.
pub open spec fn parse_amount(s: Seq<char>) -> Result<Amount, AmountError> {
    let pieces = split(s, ',', '.');
    if pieces.len() > 2 {
        Err(AmountError::DecimalSeparatorIncluded)
    } else {
        match parse_i64_spec(pieces[0]) {
            None => Err(AmountError::InvalidNumber),
            Some(integer_part) => {
                let negative = starts_negative(pieces[0]);
                let whole = abs(integer_part as int);
                if pieces.len() == 1 {
                    signed_amount(negative, whole, 0)
                } else {
                    with_fraction(negative, whole, pieces[1])
                }
            },
        }
    }
}

/// The magnitude of an amount in minor units.
pub open spec fn minor_units(amount: Amount) -> nat {
    if amount.0 < 0 {
        (-(amount.0 as int)) as nat
    } else {
        amount.0 as nat
    }
}

/// The canonical text of an amount: a minus sign where it is negative, the
/// major units, a point, and the two digits of the remaining minor units.
pub open spec fn amount_text(amount: Amount) -> Seq<char> {
    let units = minor_units(amount);
    let sign = if amount.0 < 0 { seq!['-'] } else { Seq::<char>::empty() };
    sign + nat_text(units / 100) + seq![
        '.',
        digit_char((units % 100 / 10) as int),
        digit_char((units % 10) as int),
    ]
}

/// One or two digits stand for a number below one hundred.
pub proof fn lemma_two_digits(s: Seq<char>)
    requires
        all_digits(s),
        s.len() <= 2,
    ensures
        digits_value(s) < 100,
{
    if s.len() == 1 {
        assert(is_digit(s[0]));
        assert(s.drop_last().len() == 0);
        assert(digits_value(s.drop_last()) == 0);
    } else if s.len() == 2 {
        let t = s.drop_last();
        assert(is_digit(s[0]));
        assert(is_digit(s[1]));
        assert(t[0] == s[0]);
        assert(t.drop_last().len() == 0);
        assert(digits_value(t.drop_last()) == 0);
        assert(digits_value(t) == digit_value(s[0]));
    }
}

/// Whether `text` is an integer text.
fn is_integer(text: &Vec<char>) -> (yes: bool)
    ensures
        yes == is_integer_text(text@),
{
    let n = text.len();
    if n == 0 {
        return false;
    }
    let start: usize = if text[0] == '-' || text[0] == '+' { 1 } else { 0 };
    if start == n {
        return false;
    }
    let ghost digits = unsigned_part(text@);
    let mut i: usize = start;
    while i < n
        invariant
            start <= i <= n,
            n == text.len(),
            digits == text@.subrange(start as int, n as int),
            digits == unsigned_part(text@),
            digits.len() > 0,
            forall|j: int| 0 <= j < i - start ==> is_digit(#[trigger] digits[j]),
        decreases n - i,
    {
        let c = text[i];
        if c < '0' || c > '9' {
            assert(!is_digit(digits[i - start]));
            return false;
        }
        i += 1;
    }
    true
}

impl Amount {
    /// The amount of `integer_part` major units and `fractional_part` minor
    /// units. A fraction outside 0 to 99 is refused, and so is an amount that
    /// does not fit.
    pub fn new(integer_part: i64, fractional_part: i64) -> (amount: Result<Self, AmountError>)
        ensures
            amount == compose(integer_part as int, fractional_part as int),
    {
        if fractional_part < 0 || fractional_part >= 100 {
            return Err(AmountError::FractionTooLarge);
        }
        let units: i128 = integer_part as i128 * 100 + fractional_part as i128;
        if units < i64::MIN as i128 || units > i64::MAX as i128 {
            Err(AmountError::InvalidNumber)
        } else {
            Ok(Amount(units as i64))
        }
    }

    /// The amount of `value` major units.
    pub fn from_integer(value: i64) -> (amount: Self)
        requires
            representable(value * 100),
        ensures
            amount == Amount((value * 100) as i64),
    {
        Amount(value * 100)
    }

    /// The amount of the given sign and magnitude, as `signed_amount` has it.
    fn signed(negative: bool, whole: u64, fractional_part: i64) -> (amount: Result<
        Self,
        AmountError,
    >)
        ensures
            amount == signed_amount(negative, whole as nat, fractional_part as int),
    {
        if fractional_part < 0 || fractional_part >= 100 {
            return Err(AmountError::FractionTooLarge);
        }
        let units: i128 = whole as i128 * 100 + fractional_part as i128;
        let value: i128 = if negative { -units } else { units };
        if value < i64::MIN as i128 || value > i64::MAX as i128 {
            Err(AmountError::InvalidNumber)
        } else {
            Ok(Amount(value as i64))
        }
    }

    /// Read an amount from a text such as `123`, `123.45`, `123,45` or
    /// `-0.50`.
    pub fn parse(text: &str) -> (amount: Result<Self, AmountError>)
        ensures
            amount == parse_amount(text@),
    {
        let chars = to_chars(text);
        let pieces = split_at(&chars, ',', '.');
        assert(crate::text::texts(pieces@)[0] == pieces@[0]@);
        if pieces.len() > 2 {
            return Err(AmountError::DecimalSeparatorIncluded);
        }
        let integer_part = match parse_i64(&pieces[0]) {
            None => {
                return Err(AmountError::InvalidNumber);
            },
            Some(value) => value,
        };
        let negative = pieces[0][0] == '-';
        let whole = magnitude(integer_part);
        if pieces.len() == 1 {
            return Amount::signed(negative, whole, 0);
        }
        assert(crate::text::texts(pieces@)[1] == pieces@[1]@);
        let fraction = &pieces[1];
        if !is_integer(fraction) {
            return Err(AmountError::InvalidNumber);
        }
        let signed = fraction[0] == '-' || fraction[0] == '+';
        let digits = if signed { fraction.len() - 1 } else { fraction.len() };
        if digits > 2 {
            return Err(AmountError::FractionTooLarge);
        }
        proof {
            lemma_two_digits(unsigned_part(fraction@));
        }
        match parse_i64(fraction) {
            None => Err(AmountError::InvalidNumber),
            Some(fractional_part) => Amount::signed(negative, whole, fractional_part),
        }
    }

    /// The canonical text of the amount, such as `123.45` or `-0.05`.
    pub fn to_string(&self) -> (text: String)
        ensures
            text@ == amount_text(*self),
    {
        let mut out: Vec<char> = Vec::new();
        if self.0 < 0 {
            out.push('-');
        }
        let units = magnitude(self.0);
        push_u64(&mut out, units / 100);
        out.push('.');
        let tens: u8 = (units % 100 / 10) as u8;
        let ones: u8 = (units % 10) as u8;
        out.push((tens + 48u8) as char);
        out.push((ones + 48u8) as char);
        assert(out@ == amount_text(*self));
        from_chars(&out)
    }
}

impl core::str::FromStr for Amount {
    type Err = AmountError;

    fn from_str(text: &str) -> (amount: Result<Self, AmountError>)
        ensures
            amount == parse_amount(text@),
    {
        Amount::parse(text)
    }
}

impl core::ops::Add for Amount {
    type Output = Amount;

    fn add(self, rhs: Amount) -> (sum: Amount) {
        Amount(self.0 + rhs.0)
    }
}

impl AddSpecImpl for Amount {
    open spec fn obeys_add_spec() -> bool {
        true
    }

    open spec fn add_req(self, rhs: Amount) -> bool {
        representable(self.0 + rhs.0)
    }

    open spec fn add_spec(self, rhs: Amount) -> Amount {
        Amount((self.0 + rhs.0) as i64)
    }
}

impl core::ops::Sub for Amount {
    type Output = Amount;

    fn sub(self, rhs: Amount) -> (difference: Amount) {
        Amount(self.0 - rhs.0)
    }
}

impl SubSpecImpl for Amount {
    open spec fn obeys_sub_spec() -> bool {
        true
    }

    open spec fn sub_req(self, rhs: Amount) -> bool {
        representable(self.0 - rhs.0)
    }

    open spec fn sub_spec(self, rhs: Amount) -> Amount {
        Amount((self.0 - rhs.0) as i64)
    }
}

impl DatabaseType for Amount {
    open spec fn raw_column_value_spec() -> Seq<char> {
        "INTEGER"@
    }

    open spec fn nullable_spec() -> bool {
        false
    }

    open spec fn is_sortable_spec() -> bool {
        true
    }

    /// An amount is stored as its count of minor units.
    open spec fn encode(&self) -> Option<SqlValueView> {
        Some(SqlValueView::Integer(self.0))
    }

    open spec fn accepts(value: SqlValueView) -> bool {
        value is Integer
    }

    open spec fn decodes(value: SqlValueView, item: Amount) -> bool {
        value is Integer && item.0 == value->Integer_0
    }

    fn raw_column_value() -> (raw: &'static str) {
        "INTEGER"
    }

    fn nullable() -> (nullable: bool) {
        false
    }

    fn is_sortable() -> (sortable: bool) {
        true
    }

    fn to_sql(&self) -> (value: Option<SqlValue>) {
        Some(SqlValue::Integer(self.0))
    }

    fn from_sql(value: &SqlValue) -> (item: Option<Amount>) {
        match value {
            SqlValue::Integer(units) => Some(Amount(*units)),
            _ => None,
        }
    }

    proof fn lemma_stored(self) {
    }
}

/// Writing an amount and reading the text again gives the amount back, for
/// every amount.
pub proof fn lemma_amount_round_trip(amount: Amount)
    ensures
        parse_amount(amount_text(amount)) == Ok::<Amount, AmountError>(amount),
{
    let units = minor_units(amount);
    let major = units / 100;
    let minor = units % 100;
    let negative = amount.0 < 0;
    let sign = if negative { seq!['-'] } else { Seq::<char>::empty() };
    let digits = nat_text(major);
    let head = sign + digits;
    let fraction = seq![digit_char((minor / 10) as int), digit_char((units % 10) as int)];
    let text = amount_text(amount);
    lemma_nat_text(major);
    assert(text == head.push('.') + fraction);
    assert(separator_free(fraction, ',', '.'));
    assert(separator_free(head, ',', '.')) by {
        assert forall|i: int| 0 <= i < head.len() implies !crate::text::is_separator(
            #[trigger] head[i],
            ',',
            '.',
        ) by {
            if negative {
                if i > 0 {
                    assert(head[i] == digits[i - 1]);
                    assert(is_digit(digits[i - 1]));
                }
            } else {
                assert(head[i] == digits[i]);
                assert(is_digit(digits[i]));
            }
        }
    }
    lemma_split_plain(head, ',', '.');
    lemma_split_append(head, '.', fraction, ',', '.');
    let pieces = split(text, ',', '.');
    assert(pieces == seq![head, fraction]);
    assert(pieces[0] == head);
    assert(pieces[1] == fraction);
    if negative {
        assert(head[0] == '-');
        assert(unsigned_part(head) == digits);
    } else {
        assert(head == digits);
        assert(is_digit(digits[0]));
        assert(!has_sign(head));
        assert(unsigned_part(head) == digits);
    }
    assert(starts_negative(head) == negative);
    let whole: int = if negative { -(major as int) } else { major as int };
    assert(is_integer_text(head));
    assert(integer_text_value(head) == whole);
    assert(parse_i64_spec(head) == Some(whole as i64));
    assert(abs(whole) == major);
    assert(is_digit(fraction[0]));
    assert(is_digit(fraction[1]));
    assert(!has_sign(fraction));
    assert(unsigned_part(fraction) == fraction);
    assert(all_digits(fraction));
    let first = fraction.drop_last();
    assert(first.drop_last().len() == 0);
    assert(digits_value(first.drop_last()) == 0);
    assert(first[0] == fraction[0]);
    assert(digits_value(first) == digit_value(fraction[0]));
    assert(digits_value(fraction) == minor);
    assert(major * 100 + minor == units);
}

} // verus!
