use failsafe::errors::ErrorKind;
use failsafe::numbers::parse_number;

#[test]
fn parse_number_reads_plain_digits() {
    assert_eq!(parse_number("0"), Ok(0));
    assert_eq!(parse_number("7"), Ok(7));
    assert_eq!(parse_number("1234567"), Ok(1234567));
}

#[test]
fn parse_number_reads_signs() {
    assert_eq!(parse_number("+42"), Ok(42));
    assert_eq!(parse_number("-42"), Ok(-42));
    assert_eq!(parse_number("-0"), Ok(0));
}

#[test]
fn parse_number_reads_the_extremes() {
    assert_eq!(parse_number("2147483647"), Ok(i32::MAX));
    assert_eq!(parse_number("-2147483648"), Ok(i32::MIN));
}

#[test]
fn parse_number_rejects_values_out_of_range() {
    assert_eq!(
        parse_number("2147483648"),
        Err(ErrorKind::Parse("2147483648".to_string()))
    );
    assert_eq!(
        parse_number("-2147483649"),
        Err(ErrorKind::Parse("-2147483649".to_string()))
    );
    assert!(parse_number("99999999999999999999").is_err());
}

#[test]
fn parse_number_rejects_text_outside_the_grammar() {
    assert!(parse_number("").is_err());
    assert!(parse_number("+").is_err());
    assert!(parse_number("-").is_err());
    assert!(parse_number("12a").is_err());
    assert!(parse_number(" 12").is_err());
    assert!(parse_number("1 2").is_err());
    assert!(parse_number("1_2").is_err());
}
