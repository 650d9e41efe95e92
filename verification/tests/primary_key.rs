use shelby::database::{ParseError, PrimaryKey};
use shelby::person::{Group, Person};

#[test]
fn test_parse_valid_string() {
    let parsed = "/persons/123".parse::<PrimaryKey<Person>>();
    assert_eq!(parsed, Ok(PrimaryKey::from(123)));
}

#[test]
fn test_parse_valid_number_string() {
    let parsed = "456".parse::<PrimaryKey<Person>>();
    assert_eq!(parsed, Ok(PrimaryKey::from(456)));
}

#[test]
fn test_parse_invalid_string() {
    let parsed = "/wrong_table/123".parse::<PrimaryKey<Person>>();
    assert_eq!(parsed, Err(ParseError::TableNameMismatch));
}

#[test]
fn test_key_text_round_trip() {
    for id in [0i64, 7, -7, 123, i64::MAX, i64::MIN] {
        let key = PrimaryKey::<Person>::from(id);
        assert_eq!(PrimaryKey::<Person>::parse(&key.to_string()), Ok(key));
    }
    assert_eq!(PrimaryKey::<Person>::from(42).to_string(), "/persons/42");
    assert_eq!(PrimaryKey::<Group>::from(-3).to_string(), "/groups/-3");
}

#[test]
fn test_key_of_other_table_is_refused() {
    let text = PrimaryKey::<Group>::from(5).to_string();
    assert_eq!(
        PrimaryKey::<Person>::parse(&text),
        Err(ParseError::TableNameMismatch)
    );
}

#[test]
fn test_key_parse_errors() {
    assert_eq!(PrimaryKey::<Person>::parse("persons/1"), Err(ParseError::InvalidFormat));
    assert_eq!(PrimaryKey::<Person>::parse("/persons/1/2"), Err(ParseError::InvalidFormat));
    assert_eq!(PrimaryKey::<Person>::parse(""), Err(ParseError::InvalidFormat));
    assert_eq!(PrimaryKey::<Person>::parse("/persons/x"), Err(ParseError::ParseIntError));
    assert_eq!(PrimaryKey::<Person>::parse("/persons/"), Err(ParseError::ParseIntError));
    assert_eq!(
        PrimaryKey::<Person>::parse("/persons/9223372036854775808"),
        Err(ParseError::ParseIntError)
    );
    assert_eq!(PrimaryKey::<Person>::parse("+12"), Ok(PrimaryKey::from(12)));
    assert_eq!(PrimaryKey::<Person>::parse("-0"), Ok(PrimaryKey::from(0)));
    assert_eq!(
        PrimaryKey::<Person>::parse("-9223372036854775808"),
        Ok(PrimaryKey::from(i64::MIN))
    );
    assert_eq!(PrimaryKey::<Person>::parse("x/persons/3"), Ok(PrimaryKey::from(3)));
}

#[test]
fn test_key_error_texts() {
    assert_eq!(ParseError::InvalidFormat.to_string(), "Invalid format");
    assert_eq!(ParseError::TableNameMismatch.to_string(), "Table name mismatch");
    assert_eq!(ParseError::ParseIntError.to_string(), "Parse int error");
}
