use user_directory::decimal::u32_to_decimal;

#[test]
fn single_digits_render_as_themselves() {
    for n in 0..10u32 {
        assert_eq!(u32_to_decimal(n), n.to_string());
    }
}

#[test]
fn multi_digit_values_render_in_order() {
    assert_eq!(u32_to_decimal(10), "10");
    assert_eq!(u32_to_decimal(42), "42");
    assert_eq!(u32_to_decimal(100), "100");
    assert_eq!(u32_to_decimal(90210), "90210");
    assert_eq!(u32_to_decimal(1234567890), "1234567890");
}

#[test]
fn extremes_render_exactly() {
    assert_eq!(u32_to_decimal(0), "0");
    assert_eq!(u32_to_decimal(u32::MAX), "4294967295");
}
