use trading_backend::decimal::{parse_exact, Dec};
use trading_backend::text::{contains, ends_with, i64_text, join, starts_with, str_eq, u64_text};

fn d(s: &str) -> Dec {
    parse_exact(s).unwrap()
}

#[test]
fn decimal_addition_keeps_scale() {
    let a = d("1.25");
    let b = d("2.5");
    assert_eq!(a.add(&b).unwrap().to_text(), "3.75");
    assert_eq!(a.sub(&b).unwrap().to_text(), "-1.25");
}

#[test]
fn decimal_multiplication_and_division() {
    assert_eq!(d("1.5").mul(&d("2")).unwrap().to_text(), "3.0");
    assert_eq!(d("10").div(&d("4")).unwrap().to_text(), "2.50");
    assert!(d("1").div(&Dec::zero()).is_none());
}

#[test]
fn decimal_overflow_is_reported() {
    let big = Dec::max_value();
    assert!(big.add(&big).is_none());
    assert!(big.mul(&d("2")).is_none());
}

#[test]
fn decimal_rounding_is_bankers() {
    assert_eq!(d("2.5").round().to_text(), "2");
    assert_eq!(d("3.5").round().to_text(), "4");
    assert_eq!(d("1.23456789").round_dp(4).to_text(), "1.2346");
    assert_eq!(d("1.2").round_dp(6).to_text(), "1.2");
}

#[test]
fn decimal_comparisons_are_numeric() {
    assert!(d("1.0").eq(&d("1")));
    assert!(d("0.5").lt(&d("1")));
    assert!(d("-2").lt(&d("-1.5")));
    assert!(d("2").ge(&d("2.00")));
    assert_eq!(d("1").max(d("1.00")).to_text(), "1");
    assert_eq!(d("3").min(d("2")).to_text(), "2");
}

#[test]
fn decimal_text_with_precision() {
    assert_eq!(d("66.661").to_text_prec(2), "66.66");
    assert_eq!(d("58.00").to_text_prec(0), "58");
}

#[test]
fn decimal_parse_rejects_garbage() {
    assert!(parse_exact("abc").is_none());
    assert_eq!(parse_exact("0.01").unwrap().to_text(), "0.01");
}

#[test]
fn decimal_constructors() {
    assert_eq!(Dec::new(5, 3).to_text(), "0.005");
    assert_eq!(Dec::from_i64(-7).to_text(), "-7");
    assert_eq!(Dec::from_u64(42).to_text(), "42");
    assert!(Dec::zero().is_zero());
    assert_eq!(d("-3.5").abs().to_text(), "3.5");
}

#[test]
fn text_helpers() {
    assert!(str_eq("abc", "abc"));
    assert!(!str_eq("abc", "abd"));
    assert!(starts_with("frxEURUSD", "frx"));
    assert!(ends_with("app.js", ".js"));
    assert!(contains("EUR/USD", "/"));
    assert!(!contains("EURUSD", "/"));
    assert_eq!(u64_text(305), "305");
    assert_eq!(i64_text(-42), "-42");
    assert_eq!(join(&vec!["a".to_string(), "b".to_string()], ", "), "a, b");
}

#[test]
fn decimal_small_negative_rounds_to_unsigned_zero() {
    let r = Dec::new(-4, 3).round_dp(2);
    assert_eq!(r.to_text(), "0.00");
    assert!(!r.negative);
}

#[test]
fn decimal_zero_operands() {
    let neg_zero = d("-0.00");
    let pos_zero = d("0");
    let sum = pos_zero.add(&neg_zero).unwrap();
    assert_eq!(sum.scale, neg_zero.scale);
    assert_eq!(sum.negative, neg_zero.negative);
    assert_eq!(d("0").sub(&d("2.5")).unwrap().to_text(), "-2.5");
    assert_eq!(d("2.5").sub(&d("0")).unwrap().to_text(), "2.5");
}

#[test]
fn decimal_plain_literals_parse_exactly() {
    let x = d("0.01");
    assert_eq!((x.negative, x.mantissa, x.scale), (false, 1, 2));
    let y = d("1.50");
    assert_eq!((y.mantissa, y.scale), (150, 2));
}
