//! Calendar dates, held as a count of days.
use vstd::prelude::*;

use crate::database::column_type::DatabaseType;
use crate::database::value::{SqlValue, SqlValueView};

verus! {

/// The text `YYYY-MM-DD` that chrono writes for the day with the given
/// number, counted from January 1 of the year 1 as day 1, where chrono can
/// hold that day.
pub uninterp spec fn date_text(days: i32) -> Option<Seq<char>>;

/// The number of the day that chrono reads from a text by the format
/// `%Y-%m-%d`, where it reads one.
pub uninterp spec fn date_of_text(text: Seq<char>) -> Option<i32>;

/// The number of the day with the given year, month and day of the month,
/// where there is such a day.
pub uninterp spec fn date_of_ymd(year: i32, month: u32, day: u32) -> Option<i32>;

/// `chrono::Utc::now`, `chrono::DateTime::date_naive` and
/// `chrono::Datelike::num_days_from_ce`: the number of the current day. It
/// depends on the clock, and nothing is claimed of it.
#[verifier::external_body]
fn current_day() -> i32 {
    chrono::Datelike::num_days_from_ce(&chrono::Utc::now().date_naive())
}

/// `chrono::NaiveDate::from_num_days_from_ce_opt`, then
/// `chrono::NaiveDate::format` with `%Y-%m-%d`: the text of a day.
#[verifier::external_body]
fn day_text(days: i32) -> (text: Option<String>)
    ensures
        text is Some <==> date_text(days) is Some,
        text is Some ==> text->0@ == date_text(days)->0,
{
    chrono::NaiveDate::from_num_days_from_ce_opt(days).map(
        |date| date.format("%Y-%m-%d").to_string(),
    )
}

/// `chrono::NaiveDate::parse_from_str` with `%Y-%m-%d`, then
/// `chrono::Datelike::num_days_from_ce`: the day that a text names.
#[verifier::external_body]
fn day_of_text(text: &str) -> (days: Option<i32>)
    ensures
        days == date_of_text(text@),
{
    chrono::NaiveDate::parse_from_str(text, "%Y-%m-%d").ok().map(
        |date| chrono::Datelike::num_days_from_ce(&date),
    )
}

/// `chrono::NaiveDate::from_ymd_opt`, then
/// `chrono::Datelike::num_days_from_ce`: the day of a year, month and day of
/// the month.
#[verifier::external_body]
fn day_of_ymd(year: i32, month: u32, day: u32) -> (days: Option<i32>)
    ensures
        days == date_of_ymd(year, month, day),
{
    chrono::NaiveDate::from_ymd_opt(year, month, day).map(
        |date| chrono::Datelike::num_days_from_ce(&date),
    )
}

/// The number of the day on which the time of unix starts, January 1, 1970.
pub const UNIX_EPOCH_DAY: i64 = 719_163;

/// The number of the day in which a unix timestamp lies: a day has 86,400
/// seconds.
pub open spec fn day_of_timestamp(unix_time: i64) -> int {
    unix_time as int / 86_400 + UNIX_EPOCH_DAY
}

/// A date is refused because it lies in the future.
#[derive(Debug, Clone, Copy, PartialEq, Eq, Default, Structural)]
pub struct DateError;

impl DateError {
    /// The text of the error.
    pub fn to_string(&self) -> (text: String)
        ensures
            text@ == "invalid timestamp which is in the future"@,
    {
        "invalid timestamp which is in the future".to_owned()
    }
}

/// A calendar date, held as the number of its day. The dates that the
/// library takes in from outside are today or in the past.
#[derive(Debug, Clone, Copy, PartialEq, Eq, PartialOrd, Ord)]
pub struct Date(i32);

impl Date {
    /// The number of the day, counted from January 1 of the year 1 as day 1.
    pub closed spec fn days(self) -> i32 {
        self.0
    }

    /// The number of the day, counted from January 1 of the year 1 as day 1.
    pub fn num_days(&self) -> (days: i32)
        ensures
            days == self.days(),
    {
        self.0
    }

    /// Whether `date` is the date whose day the clock gave.
    pub closed spec fn clock_gave(date: Date) -> bool {
        call_ensures(current_day, (), date.0)
    }

    /// The current date: the date of the day that the clock gives.
    pub fn today() -> (date: Date)
        ensures
            Date::clock_gave(date),
    {
        let days = current_day();
        assert(call_ensures(current_day, (), days));
        Date(days)
    }

    /// The date of the day with the given number, where there is one.
    pub fn from_days(days: i32) -> (date: Option<Date>)
        ensures
            date is Some <==> date_text(days) is Some,
            date is Some ==> date->0.days() == days,
    {
        match day_text(days) {
            Some(_) => Some(Date(days)),
            None => None,
        }
    }

    /// The date of a year, month and day of the month, where there is one.
    pub fn from_ymd(year: i32, month: u32, day: u32) -> (date: Option<Date>)
        ensures
            date is Some <==> date_of_ymd(year, month, day) is Some,
            date is Some ==> date->0.days() == date_of_ymd(year, month, day)->0,
    {
        match day_of_ymd(year, month, day) {
            Some(days) => Some(Date(days)),
            None => None,
        }
    }

    /// The date that a text of the form `2000-01-31` names, where it names
    /// one.
    pub fn parse(text: &str) -> (date: Option<Date>)
        ensures
            date is Some <==> date_of_text(text@) is Some,
            date is Some ==> date->0.days() == date_of_text(text@)->0,
    {
        match day_of_text(text) {
            Some(days) => Some(Date(days)),
            None => None,
        }
    }

    /// The date of the day in which a unix timestamp lies, where there is
    /// one.
    pub fn from_timestamp(unix_time: i64) -> (date: Option<Date>)
        ensures
            date is Some <==> i32::MIN <= day_of_timestamp(unix_time) <= i32::MAX && date_text(
                day_of_timestamp(unix_time) as i32,
            ) is Some,
            date is Some ==> date->0.days() == day_of_timestamp(unix_time),
    {
        let days: i64 = if unix_time >= 0 {
            let whole: u64 = unix_time as u64 / 86_400;
            assert(whole == unix_time as int / 86_400);
            whole as i64 + UNIX_EPOCH_DAY
        } else {
            let seconds: u64 = crate::text::magnitude(unix_time);
            let whole: u64 = (seconds + 86_399) / 86_400;
            assert(-(whole as int) == unix_time as int / 86_400) by (nonlinear_arith)
                requires
                    seconds == -(unix_time as int),
                    seconds > 0,
                    whole == (seconds + 86_399) as int / 86_400,
            ;
            UNIX_EPOCH_DAY - whole as i64
        };
        if days < -2147483648 || days > 2147483647 {
            return None;
        }
        Date::from_days(days as i32)
    }

    /// The date `value`, unless it lies behind `today`.
    pub open spec fn checked(value: Date, today: Date) -> Result<Date, DateError> {
        if value.days() <= today.days() {
            Ok(value)
        } else {
            Err(DateError)
        }
    }

    /// The date `value`, unless it lies behind `today`.
    pub fn not_after(value: Date, today: Date) -> (date: Result<Date, DateError>)
        ensures
            date == Date::checked(value, today),
    {
        if value.0 <= today.0 {
            Ok(value)
        } else {
            Err(DateError)
        }
    }

    /// The date `value`, unless it lies in the future: what
    /// [`Date::not_after`] gives for the current date, which the clock
    /// decides.
    pub fn try_from(value: Date) -> (date: Result<Date, DateError>)
        ensures
            exists|today: Date|
                #[trigger] call_ensures(Date::today, (), today) && date == Date::checked(
                    value,
                    today,
                ),
    {
        let today = Date::today();
        let date = Date::not_after(value, today);
        assert(call_ensures(Date::today, (), today) && date == Date::checked(value, today));
        date
    }

    /// The text of the date, which is empty for a day that chrono cannot
    /// hold.
    pub open spec fn text(self) -> Seq<char> {
        match date_text(self.days()) {
            Some(text) => text,
            None => Seq::<char>::empty(),
        }
    }

    /// The text of the date in the form `2000-01-31`.
    pub fn to_string(&self) -> (text: String)
        ensures
            text@ == self.text(),
    {
        match day_text(self.0) {
            Some(text) => text,
            None => String::new(),
        }
    }
}

impl Default for Date {
    /// The current date.
    fn default() -> (date: Date) {
        Date::today()
    }
}

impl DatabaseType for Date {
    open spec fn raw_column_value_spec() -> Seq<char> {
        "DATETIME"@
    }

    open spec fn nullable_spec() -> bool {
        false
    }

    open spec fn is_sortable_spec() -> bool {
        true
    }

    /// A date is stored as its text, if the text reads back as the date.
    open spec fn encode(&self) -> Option<SqlValueView> {
        if date_text(self.days()) is Some && date_of_text(self.text()) == Some(self.days()) {
            Some(SqlValueView::Text(self.text()))
        } else {
            None
        }
    }

    open spec fn accepts(value: SqlValueView) -> bool {
        value is Text && date_of_text(value->Text_0) is Some
    }

    open spec fn decodes(value: SqlValueView, item: Date) -> bool {
        value is Text && date_of_text(value->Text_0) == Some(item.days())
    }

    fn raw_column_value() -> (raw: &'static str) {
        "DATETIME"
    }

    fn nullable() -> (nullable: bool) {
        false
    }

    fn is_sortable() -> (sortable: bool) {
        true
    }

    fn to_sql(&self) -> (value: Option<SqlValue>) {
        match day_text(self.0) {
            Some(text) => match day_of_text(text.as_str()) {
                Some(days) => if days == self.0 {
                    Some(SqlValue::Text(text))
                } else {
                    None
                },
                None => None,
            },
            None => None,
        }
    }

    fn from_sql(value: &SqlValue) -> (item: Option<Date>) {
        match value {
            SqlValue::Text(text) => Date::parse(text.as_str()),
            _ => None,
        }
    }

    proof fn lemma_stored(self) {
    }
}

} // verus!
