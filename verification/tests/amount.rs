use shelby::accounting::{Amount, AmountError};
use shelby::database::{DatabaseType, SqlValue};

#[test]
fn test_amount_new_valid() {
    assert_eq!(Amount::new(123, 0), Ok(Amount(12300)));
    assert_eq!(Amount::new(123, 50), Ok(Amount(12350)));
}

#[test]
fn test_amount_new_empty_fraction() {
    assert_eq!(Amount::new(123, 0), Ok(Amount(12300)));
}

#[test]
fn test_amount_new_invalid_fraction() {
    assert_eq!(Amount::new(123, 100), Err(AmountError::FractionTooLarge));
}

#[test]
fn test_amount_display() {
    assert_eq!(Amount::new(123, 45).unwrap().to_string(), "123.45");
    assert_eq!(Amount::from_integer(123).to_string(), "123.00");
}

#[test]
fn test_amount_from_str_valid() {
    assert_eq!("123.45".parse::<Amount>(), Ok(Amount(12345)));
    assert_eq!("123,45".parse::<Amount>(), Ok(Amount(12345)));
    assert_eq!("123".parse::<Amount>(), Ok(Amount(12300)));
}

#[test]
fn test_amount_from_str_invalid() {
    assert_eq!(
        "123.456".parse::<Amount>(),
        Err(AmountError::FractionTooLarge)
    );
    assert_eq!(
        "123,456".parse::<Amount>(),
        Err(AmountError::FractionTooLarge)
    );
    assert_eq!(
        "12.345".parse::<Amount>(),
        Err(AmountError::FractionTooLarge)
    );
    assert_eq!(
        "12,345".parse::<Amount>(),
        Err(AmountError::FractionTooLarge)
    );
    assert_eq!(
        "100.000,345".parse::<Amount>(),
        Err(AmountError::DecimalSeparatorIncluded)
    );
}

#[test]
fn test_amount_add() {
    assert_eq!(Amount(100) + Amount(200), Amount(300));
}

#[test]
fn test_amount_sub() {
    assert_eq!(Amount(300) - Amount(100), Amount(200));
}

#[test]
fn test_amount_text_round_trip() {
    for units in [
        0i64,
        5,
        45,
        100,
        12345,
        12300,
        -12300,
        i64::MAX,
        -100,
        -5,
        -45,
        -150,
        -12345,
        i64::MIN,
    ] {
        let amount = Amount(units);
        assert_eq!(Amount::parse(&amount.to_string()), Ok(amount));
    }
    assert_eq!(Amount::parse("123"), Amount::parse("123.00"));
}

#[test]
fn test_amount_text_of_negative_amounts() {
    assert_eq!(Amount(-12345).to_string(), "-123.45");
    assert_eq!(Amount(-45).to_string(), "-0.45");
    assert_eq!(Amount(-5).to_string(), "-0.05");
    assert_eq!(Amount(7).to_string(), "0.07");
    assert_eq!(Amount(i64::MIN).to_string(), "-92233720368547758.08");
    assert_eq!(Amount(i64::MAX).to_string(), "92233720368547758.07");
    assert_eq!(Amount::parse("-123.45"), Ok(Amount(-12345)));
}

#[test]
fn test_amount_sign_is_taken_from_the_text() {
    assert_eq!(Amount::parse("-1.50"), Ok(Amount(-150)));
    assert_eq!("-1.50".parse::<Amount>(), Ok(Amount(-150)));
    assert_eq!(Amount::parse("-0.50"), Ok(Amount(-50)));
    assert_eq!(Amount::parse("-0,05"), Ok(Amount(-5)));
    assert_eq!(Amount::parse("+0.50"), Ok(Amount(50)));
    assert_eq!(Amount::parse("-0"), Ok(Amount(0)));
    assert_eq!(Amount::parse("-7"), Ok(Amount(-700)));
    assert_eq!(
        Amount::parse("-92233720368547758.08"),
        Ok(Amount(i64::MIN))
    );
    assert_eq!(
        Amount::parse("-92233720368547758.09"),
        Err(AmountError::InvalidNumber)
    );
    assert_eq!(
        Amount::parse("-92233720368547759"),
        Err(AmountError::InvalidNumber)
    );
}

#[test]
fn test_amount_parse_edges() {
    assert_eq!(Amount::parse(""), Err(AmountError::InvalidNumber));
    assert_eq!(Amount::parse("abc"), Err(AmountError::InvalidNumber));
    assert_eq!(Amount::parse("12."), Err(AmountError::InvalidNumber));
    assert_eq!(Amount::parse(".5"), Err(AmountError::InvalidNumber));
    assert_eq!(Amount::parse("12.x"), Err(AmountError::InvalidNumber));
    assert_eq!(Amount::parse("1.2.3"), Err(AmountError::DecimalSeparatorIncluded));
    assert_eq!(Amount::parse("12.5"), Ok(Amount(1205)));
    assert_eq!(Amount::parse("12.+5"), Ok(Amount(1205)));
    assert_eq!(Amount::parse("12.-5"), Err(AmountError::FractionTooLarge));
    assert_eq!(Amount::parse("12.005"), Err(AmountError::FractionTooLarge));
    assert_eq!(
        Amount::parse("12.99999999999999999999"),
        Err(AmountError::FractionTooLarge)
    );
    assert_eq!(
        Amount::parse("92233720368547758.07"),
        Ok(Amount(i64::MAX))
    );
    assert_eq!(
        Amount::parse("92233720368547758.08"),
        Err(AmountError::InvalidNumber)
    );
    assert_eq!(
        Amount::parse("92233720368547759"),
        Err(AmountError::InvalidNumber)
    );
    assert_eq!(
        Amount::new(i64::MAX, 0),
        Err(AmountError::InvalidNumber)
    );
    assert_eq!(Amount::new(-92233720368547759, 99), Ok(Amount(-9223372036854775801)));
    assert_eq!(Amount::new(1, -1), Err(AmountError::FractionTooLarge));
}

#[test]
fn test_amount_is_stored_as_minor_units() {
    assert_eq!(Amount(12345).to_sql(), Some(SqlValue::Integer(12345)));
    assert_eq!(Amount::from_sql(&SqlValue::Integer(-7)), Some(Amount(-7)));
    assert_eq!(Amount::from_sql(&SqlValue::Text(String::from("7"))), None);
    assert_eq!(Amount::raw_column_value(), "INTEGER");
    assert_eq!(Amount::column_value(), "INTEGER NOT NULL");
    assert!(Amount::is_sortable());
}

#[test]
fn test_amount_error_texts() {
    assert_eq!(
        AmountError::FractionTooLarge.to_string(),
        "The fractional component has more than two digits"
    );
    assert_eq!(
        AmountError::DecimalSeparatorIncluded.to_string(),
        "There are more than two seperated blocks in the value"
    );
    assert_eq!(
        AmountError::InvalidNumber.to_string(),
        "The provided numbers are invalid"
    );
}
