use swapper::numeral::u32_to_decimal;

#[test]
fn zero_is_one_digit() {
    assert_eq!(u32_to_decimal(0), "0");
}

#[test]
fn single_digits() {
    assert_eq!(u32_to_decimal(7), "7");
    assert_eq!(u32_to_decimal(9), "9");
}

#[test]
fn multiple_digits_keep_their_order() {
    assert_eq!(u32_to_decimal(10), "10");
    assert_eq!(u32_to_decimal(42), "42");
    assert_eq!(u32_to_decimal(100230), "100230");
}

#[test]
fn largest_value() {
    assert_eq!(u32_to_decimal(u32::MAX), "4294967295");
}
