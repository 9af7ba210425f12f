use image_processor::text::format_decimal;

#[test]
fn decimal_numerals() {
    assert_eq!(format_decimal(0), "0");
    assert_eq!(format_decimal(7), "7");
    assert_eq!(format_decimal(9), "9");
    assert_eq!(format_decimal(10), "10");
    assert_eq!(format_decimal(101), "101");
    assert_eq!(format_decimal(1_700_000_000), "1700000000");
    assert_eq!(format_decimal(u64::MAX), "18446744073709551615");
}

#[test]
fn decimal_numerals_are_those_of_the_standard_library() {
    let mut n: u64 = 1;
    for _ in 0..40 {
        assert_eq!(format_decimal(n), n.to_string());
        assert_eq!(format_decimal(n - 1), (n - 1).to_string());
        n = n.wrapping_mul(3).wrapping_add(7) % 1_000_000_000_000_000_000 + 1;
    }
}
