use widget_runtime::text::{format_fixed, u64_to_string};

#[test]
fn machine_words_render_in_decimal() {
    assert_eq!(u64_to_string(0), "0");
    assert_eq!(u64_to_string(7), "7");
    assert_eq!(u64_to_string(1_234_567_890), "1234567890");
    assert_eq!(u64_to_string(u64::MAX), "18446744073709551615");
}

#[test]
fn fixed_point_values_render_with_exact_decimals() {
    assert_eq!(format_fixed(1_234_567, 6), "1.234567");
    assert_eq!(format_fixed(1_234_567, 2), "1.23");
    assert_eq!(format_fixed(1_234_567, 0), "1");
    assert_eq!(format_fixed(0, 0), "0");
    assert_eq!(format_fixed(0, 2), "0.00");
}

#[test]
fn rounding_is_to_nearest_with_ties_away_from_zero() {
    assert_eq!(format_fixed(1_235_000, 2), "1.24");
    assert_eq!(format_fixed(1_234_999, 2), "1.23");
    assert_eq!(format_fixed(999_999, 0), "1");
    assert_eq!(format_fixed(-1_235_000, 2), "-1.24");
    assert_eq!(format_fixed(500_000, 0), "1");
    assert_eq!(format_fixed(499_999, 0), "0");
}

#[test]
fn fractional_parts_keep_their_leading_zeros() {
    assert_eq!(format_fixed(1_000_050, 3), "1.000");
    assert_eq!(format_fixed(1_050_000, 3), "1.050");
    assert_eq!(format_fixed(10_000_500, 4), "10.0005");
}

#[test]
fn negative_values_carry_their_sign() {
    assert_eq!(format_fixed(-2_500_000, 1), "-2.5");
    assert_eq!(format_fixed(-42, 6), "-0.000042");
}

#[test]
fn the_largest_representable_value_renders() {
    assert_eq!(format_fixed(1_000_000_000_000, 6), "1000000.000000");
    assert_eq!(format_fixed(-1_000_000_000_000, 0), "-1000000");
}
