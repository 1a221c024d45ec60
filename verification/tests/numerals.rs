use editor_backend::numeral::i128_to_decimal;
use editor_backend::numeral::u128_to_decimal;

#[test]
fn u128_decimal_matches_expected_text() {
    assert_eq!(u128_to_decimal(0), "0");
    assert_eq!(u128_to_decimal(7), "7");
    assert_eq!(u128_to_decimal(10), "10");
    assert_eq!(u128_to_decimal(1000), "1000");
    assert_eq!(u128_to_decimal(1234567890123456789), "1234567890123456789");
    assert_eq!(u128_to_decimal(u128::MAX), format!("{}", u128::MAX));
}

#[test]
fn i128_decimal_handles_signs() {
    assert_eq!(i128_to_decimal(0), "0");
    assert_eq!(i128_to_decimal(42), "42");
    assert_eq!(i128_to_decimal(-5), "-5");
    assert_eq!(i128_to_decimal(-1000), "-1000");
    assert_eq!(i128_to_decimal(i128::MIN + 1), format!("{}", i128::MIN + 1));
    assert_eq!(i128_to_decimal(i128::MAX), format!("{}", i128::MAX));
}
