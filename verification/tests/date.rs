use chrono::{Datelike, NaiveDate, Utc};
use shelby::database::{DatabaseType, SqlValue};
use shelby::{Date, DateError};

#[test]
fn test_date_today() {
    let today = Date::today();
    let now = Utc::now().date_naive();
    assert_eq!(today.num_days(), now.num_days_from_ce());
}

#[test]
fn test_date_default() {
    let default_date = Date::default();
    let now = Utc::now().date_naive();
    assert_eq!(default_date.num_days(), now.num_days_from_ce());
}

#[test]
fn test_date_try_from_naive_date() {
    let naive_date = NaiveDate::from_ymd_opt(2022, 1, 1).expect("valid date");
    let date = Date::try_from(Date::from_ymd(2022, 1, 1).expect("valid date")).unwrap();
    assert_eq!(date.num_days(), naive_date.num_days_from_ce());
}

#[test]
fn test_date_try_from_datetime_utc() {
    let datetime_utc = Utc::now();
    let date = Date::try_from(
        Date::from_days(datetime_utc.date_naive().num_days_from_ce()).expect("valid date"),
    )
    .unwrap();
    assert_eq!(date.num_days(), datetime_utc.date_naive().num_days_from_ce());
}

#[test]
fn test_date_not_in_future() {
    // Would be interesting, if the software is still used
    let future_date = Date::from_ymd(3000, 2, 18).expect("valid date");
    assert_eq!(Date::try_from(future_date), Err(DateError));
}

#[test]
fn test_date_text() {
    let date = Date::from_ymd(2022, 2, 18).expect("valid date");
    assert_eq!(date.to_string(), "2022-02-18");
    assert_eq!(Date::parse("2022-02-18"), Some(date));
    assert_eq!(Date::parse("2022-02-30"), None);
    assert_eq!(Date::parse("yesterday"), None);
    assert_eq!(Date::from_ymd(2022, 13, 1), None);
    assert_eq!(Date::from_days(i32::MAX), None);
    assert_eq!(Date::from_days(1).expect("valid date").to_string(), "0001-01-01");
    let earlier = Date::from_ymd(2022, 2, 17).expect("valid date");
    assert_eq!(Date::not_after(earlier, date), Ok(earlier));
    assert_eq!(Date::not_after(date, date), Ok(date));
    assert_eq!(Date::not_after(date, earlier), Err(DateError));
    assert_eq!(
        DateError.to_string(),
        "invalid timestamp which is in the future"
    );
}

#[test]
fn test_date_is_stored_as_text() {
    let date = Date::from_ymd(2022, 2, 18).expect("valid date");
    assert_eq!(date.to_sql(), Some(SqlValue::Text(String::from("2022-02-18"))));
    assert_eq!(
        Date::from_sql(&SqlValue::Text(String::from("2022-02-18"))),
        Some(date)
    );
    assert_eq!(Date::from_sql(&SqlValue::Integer(3)), None);
    assert_eq!(Option::<Date>::from_sql(&SqlValue::Null), Some(None));
    assert_eq!(Date::column_value(), "DATETIME NOT NULL");
    assert_eq!(Option::<Date>::column_value(), "DATETIME");
}

#[test]
fn test_date_of_timestamp() {
    let day = |unix_time: i64| Date::from_timestamp(unix_time).map(|date| date.to_string());
    assert_eq!(day(0), Some(String::from("1970-01-01")));
    assert_eq!(day(86_399), Some(String::from("1970-01-01")));
    assert_eq!(day(86_400), Some(String::from("1970-01-02")));
    assert_eq!(day(-1), Some(String::from("1969-12-31")));
    assert_eq!(day(-86_400), Some(String::from("1969-12-31")));
    assert_eq!(day(-86_401), Some(String::from("1969-12-30")));
    assert_eq!(day(1_431_648_000), Some(String::from("2015-05-15")));
    assert_eq!(day(i64::MAX), None);
    assert_eq!(day(i64::MIN), None);
    for unix_time in [0i64, -1, 1_708_300_800, -2_000_000_000, 253_402_300_799] {
        let expected = chrono::DateTime::<Utc>::from_timestamp(unix_time, 0)
            .map(|time| time.date_naive().num_days_from_ce());
        assert_eq!(
            Date::from_timestamp(unix_time).map(|date| date.num_days()),
            expected
        );
    }
}
