use failsafe::errors::{DomainError, ErrorKind};

#[test]
fn io_conversion_keeps_details() {
    let e = ErrorKind::from_io("no such file".to_string());
    assert_eq!(e, ErrorKind::Io("no such file".to_string()));
    assert_eq!(e.describe(), "storage failure: no such file");
}

#[test]
fn parse_conversion_keeps_details() {
    let e = ErrorKind::from_parse("12x".to_string());
    assert_eq!(e, ErrorKind::Parse("12x".to_string()));
    assert_eq!(e.describe(), "integer parse failure: 12x");
}

#[test]
fn parse_float_conversion_keeps_details() {
    let e = ErrorKind::from_parse_float("1.2.3".to_string());
    assert_eq!(e, ErrorKind::ParseFloat("1.2.3".to_string()));
    assert_eq!(e.describe(), "floating-point parse failure: 1.2.3");
}

#[test]
fn domain_conversion_keeps_the_cause() {
    let e = ErrorKind::from_domain(DomainError::DivisionByZero);
    assert_eq!(e, ErrorKind::Domain(DomainError::DivisionByZero));
    assert_eq!(e.describe(), "domain failure: division by zero");
}

#[test]
fn domain_error_descriptions() {
    assert_eq!(DomainError::DivisionByZero.describe(), "division by zero");
    assert_eq!(
        DomainError::NegativeSquareRoot.describe(),
        "square root of a negative number"
    );
    assert_eq!(DomainError::Overflow.describe(), "arithmetic overflow");
}
