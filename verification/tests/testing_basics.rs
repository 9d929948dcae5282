use failsafe::arith::{add, internal_adder, subtract};
use failsafe::guess::Guess;
use failsafe::numbers::parse_number;
use failsafe::shapes::Rectangle;

#[test]
fn test_add() {
    assert_eq!(add(2, 2), 4);
    assert_eq!(add(-1, 1), 0);
    assert_eq!(add(0, 0), 0);
}

#[test]
fn test_subtract() {
    assert_eq!(subtract(5, 3), 2);
    assert_eq!(subtract(0, 5), -5);
}

#[test]
fn test_with_assert() {
    let result = add(2, 2);
    assert!(result == 4);
    assert!(result > 0);
}

#[test]
fn test_not_equal() {
    assert_ne!(add(2, 2), 5);
}

#[test]
fn larger_can_hold_smaller() {
    let larger = Rectangle { width: 8, height: 7 };
    let smaller = Rectangle { width: 5, height: 1 };

    assert!(
        larger.can_hold(&smaller),
        "大きい長方形{}x{}は小さい長方形{}x{}を含むべき",
        larger.width,
        larger.height,
        smaller.width,
        smaller.height
    );
}

#[test]
fn smaller_cannot_hold_larger() {
    let larger = Rectangle { width: 8, height: 7 };
    let smaller = Rectangle { width: 5, height: 1 };

    assert!(!smaller.can_hold(&larger));
}

#[test]
fn squares_are_equal() {
    let square1 = Rectangle::square(5);
    let square2 = Rectangle::square(5);

    assert_eq!(square1, square2, "同じサイズの正方形は等しいべき");
}

#[test]
fn valid_guess() {
    let guess = Guess::new(50);
    assert_eq!(guess.value(), 50);
}

#[test]
fn test_parse_valid_number() -> Result<(), String> {
    let result = parse_number("42").map_err(|e| e.describe())?;
    assert_eq!(result, 42);
    Ok(())
}

#[test]
fn test_parse_invalid_number() {
    let result = parse_number("abc");
    assert!(result.is_err());
}

#[test]
fn multiple_assertions() -> Result<(), String> {
    let num1 = parse_number("10").map_err(|e| e.describe())?;
    let num2 = parse_number("20").map_err(|e| e.describe())?;

    assert_eq!(num1, 10);
    assert_eq!(num2, 20);
    assert_eq!(num1 + num2, 30);

    Ok(())
}

#[test]
fn internal() {
    assert_eq!(4, internal_adder(2, 2));
}

fn common_setup() -> Vec<i32> {
    vec![1, 2, 3, 4, 5]
}

#[test]
fn test_with_setup() {
    let data = common_setup();
    assert_eq!(data.len(), 5);
}
