use failsafe::chain::{and_then, chain3};
use failsafe::domain::{convert_domain, divide, sqrt};
use failsafe::errors::{DomainError, ErrorKind};

fn divide_f64(a: f64, b: f64) -> Result<f64, DomainError> {
    divide(a / b, b == 0.0)
}

fn sqrt_f64(x: f64) -> Result<f64, DomainError> {
    sqrt(x.sqrt(), x < 0.0)
}

fn parse_f64(text: &str) -> Result<f64, ErrorKind> {
    text.trim()
        .parse::<f64>()
        .map_err(|e| ErrorKind::from_parse_float(e.to_string()))
}

#[test]
fn divide_by_zero_fails_for_every_numerator() {
    for a in [-7.5f64, -1.0, 0.0, 1.0, 10.0, 1e300] {
        assert_eq!(divide_f64(a, 0.0), Err(DomainError::DivisionByZero));
        assert_eq!(
            convert_domain(divide_f64(a, 0.0)),
            Err(ErrorKind::Domain(DomainError::DivisionByZero))
        );
    }
}

#[test]
fn divide_nonzero_is_exact() {
    assert_eq!(divide_f64(10.0, 2.0), Ok(5.0));
    assert_eq!(divide_f64(7.0, 2.0), Ok(3.5));
    assert_eq!(divide_f64(-9.0, 3.0), Ok(-3.0));
    assert_eq!(divide_f64(0.0, 4.0), Ok(0.0));
}

#[test]
fn sqrt_of_negative_fails() {
    for x in [-4.0f64, -0.5, -1e9] {
        assert_eq!(sqrt_f64(x), Err(DomainError::NegativeSquareRoot));
    }
}

#[test]
fn sqrt_squares_back_within_tolerance() {
    for x in [0.0f64, 1.0, 2.0, 16.0, 123.456, 1e12] {
        let root = sqrt_f64(x).unwrap();
        assert!((root * root - x).abs() <= 1e-9 * x.max(1.0));
    }
}

#[test]
fn failing_middle_step_short_circuits() {
    let mut ran_first = 0u32;
    let mut ran_second = 0u32;
    let mut ran_third = 0u32;
    let r = chain3(
        5i32,
        |x: i32| {
            ran_first += 1;
            Ok(x + 1)
        },
        |_x: i32| {
            ran_second += 1;
            Err(ErrorKind::Parse("boom".to_string()))
        },
        |x: i32| {
            ran_third += 1;
            Ok(x)
        },
    );
    assert_eq!(ran_first, 1);
    assert_eq!(ran_second, 1);
    assert_eq!(ran_third, 0);
    assert_eq!(r, Err(ErrorKind::Parse("boom".to_string())));
}

#[test]
fn pipeline_on_one_hundred_yields_one() {
    let stored = "100".to_string();
    let r = chain3(
        stored,
        |t: String| parse_f64(&t),
        |x: f64| convert_domain(sqrt_f64(x)),
        |x: f64| convert_domain(divide_f64(x, 10.0)),
    );
    assert_eq!(r, Ok(1.0));
}

#[test]
fn pipeline_on_negative_input_skips_divide() {
    let mut divide_ran = 0u32;
    let stored = "-4".to_string();
    let r = chain3(
        stored,
        |t: String| parse_f64(&t),
        |x: f64| convert_domain(sqrt_f64(x)),
        |x: f64| {
            divide_ran += 1;
            convert_domain(divide_f64(x, 10.0))
        },
    );
    assert_eq!(r, Err(ErrorKind::Domain(DomainError::NegativeSquareRoot)));
    assert_eq!(divide_ran, 0);
}

#[test]
fn pipeline_on_unparsable_text_fails_with_float_parse() {
    let stored = "not a number".to_string();
    let r = chain3(
        stored,
        |t: String| parse_f64(&t),
        |x: f64| convert_domain(sqrt_f64(x)),
        |x: f64| convert_domain(divide_f64(x, 10.0)),
    );
    assert!(matches!(r, Err(ErrorKind::ParseFloat(_))));
}

#[test]
fn and_then_feeds_success_forward() {
    let r = and_then(Ok(21i64), |x: i64| Ok(x * 2));
    assert_eq!(r, Ok(42));
}

#[test]
fn and_then_passes_failure_through_untouched() {
    let mut ran = 0u32;
    let input: Result<i64, ErrorKind> = Err(ErrorKind::Io("gone".to_string()));
    let r = and_then(input, |x: i64| {
        ran += 1;
        Ok(x * 2)
    });
    assert_eq!(r, Err(ErrorKind::Io("gone".to_string())));
    assert_eq!(ran, 0);
}
