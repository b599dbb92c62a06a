use rgbcal::decimal::u64_to_decimal;

#[test]
fn single_digits() {
    assert_eq!(u64_to_decimal(0).as_str(), "0");
    assert_eq!(u64_to_decimal(7).as_str(), "7");
    assert_eq!(u64_to_decimal(9).as_str(), "9");
}

#[test]
fn multi_digit_numerals() {
    assert_eq!(u64_to_decimal(10).as_str(), "10");
    assert_eq!(u64_to_decimal(160).as_str(), "160");
    assert_eq!(u64_to_decimal(12_345).as_str(), "12345");
    assert_eq!(u64_to_decimal(1_000_000).as_str(), "1000000");
}

#[test]
fn largest_value() {
    assert_eq!(u64_to_decimal(u64::MAX).as_str(), "18446744073709551615");
}
