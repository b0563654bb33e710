use nutrient_optimizer::decimal::parse_decimal;
use nutrient_optimizer::format::{
    format_amount, format_decimal, format_share, format_value, round_percentage,
};

#[test]
fn a_level_is_shown_with_three_decimals() {
    assert_eq!(format_value(40_000_000_000_000), "40.000");
    assert_eq!(format_value(1_234_000_000_000), "1.234");
    assert_eq!(format_value(20_005_000_000_001), "20.005");
    assert_eq!(format_value(7_000_000_000), "0.007");
    assert_eq!(format_value(70_000_000_000), "0.070");
    assert_eq!(format_value(700_000_000_000), "0.700");
    assert_eq!(format_value(1_000_000_000_000_000), "1000.000");
}

#[test]
fn a_level_is_rounded_to_the_nearest_thousandth() {
    assert_eq!(format_value(1_234_499_999_999), "1.234");
    assert_eq!(format_value(1_234_500_000_001), "1.235");
    assert_eq!(format_value(999_999_999_999), "1.000");
    assert_eq!(format_value(9_999_500_000_001), "10.000");
}

#[test]
fn a_level_halfway_goes_to_the_even_thousandth() {
    assert_eq!(format_value(1_234_500_000_000), "1.234");
    assert_eq!(format_value(1_235_500_000_000), "1.236");
    assert_eq!(format_value(500_000_000), "0.000");
    assert_eq!(format_value(1_500_000_000), "0.002");
    assert_eq!(format!("{:.3}", 0.0625_f64), "0.062");
    assert_eq!(format_value(62_500_000_000), "0.062");
    assert_eq!(format!("{:.3}", 0.1875_f64), "0.188");
    assert_eq!(format_value(187_500_000_000), "0.188");
}

#[test]
fn a_level_that_rounds_to_nothing_is_shown_as_zero() {
    assert_eq!(format_value(0), "0.000");
    assert_eq!(format_value(1), "0.000");
    assert_eq!(format_value(99_999_999), "0.000");
    assert_eq!(format_value(499_999_999), "0.000");
    assert_eq!(format_value(500_000_001), "0.001");
}

#[test]
fn the_largest_level_is_shown_in_full() {
    assert_eq!(format_value(u128::MAX), "340282366920938463463374607.432");
}

#[test]
fn a_level_is_shown_as_its_floating_point_value_is() {
    for level in [40_000_000_000_000_u128, 6_132_820_000_000, 123_456_789_012, 15_250_000_000_000]
    {
        assert_eq!(format_value(level), format!("{:.3}", level as f64 / 1e12));
    }
}

#[test]
fn a_share_is_shown_as_a_whole_percentage() {
    assert_eq!(format_share(50_000_000), "50% NH₄⁺");
    assert_eq!(format_share(0), "0% NH₄⁺");
    assert_eq!(format_share(100_000_000), "100% NH₄⁺");
    assert_eq!(format_share(33_333_333), "33% NH₄⁺");
    assert_eq!(format_share(66_666_667), "67% NH₄⁺");
    assert_eq!(format_share(99_500_001), "100% NH₄⁺");
    assert_eq!(format_share(u32::MAX), "4295% NH₄⁺");
}

#[test]
fn a_share_halfway_goes_to_the_even_percentage() {
    assert_eq!(format_share(500_000), "0% NH₄⁺");
    assert_eq!(format_share(1_500_000), "2% NH₄⁺");
    assert_eq!(format_share(2_500_000), "2% NH₄⁺");
    assert_eq!(format_share(2_500_001), "3% NH₄⁺");
    assert_eq!(format!("{:.0}% NH₄⁺", 2.5_f64), "2% NH₄⁺");
    assert_eq!(format!("{:.0}% NH₄⁺", 50.0_f64), format_share(50_000_000));
}

#[test]
fn a_dosage_is_shown_with_two_decimals() {
    assert_eq!(format_amount(0), "0.00");
    assert_eq!(format_amount(300_000), "0.30");
    assert_eq!(format_amount(2_240_000), "2.24");
    assert_eq!(format_amount(57_123_456), "57.12");
    assert_eq!(format_amount(4_999), "0.00");
    assert_eq!(format_amount(5_001), "0.01");
    assert_eq!(format_amount(999_995_001), "1000.00");
    assert_eq!(format_amount(u32::MAX), "4294.97");
}

#[test]
fn a_dosage_halfway_goes_to_the_even_hundredth() {
    assert_eq!(format_amount(5_000), "0.00");
    assert_eq!(format_amount(15_000), "0.02");
    assert_eq!(format_amount(125_000), "0.12");
    assert_eq!(format!("{:.2}", 0.125_f64), "0.12");
    assert_eq!(format_amount(375_000), "0.38");
    assert_eq!(format!("{:.2}", 0.375_f64), "0.38");
}

#[test]
fn a_percentage_is_rounded_to_a_whole_number() {
    assert_eq!(round_percentage(0), 0);
    assert_eq!(round_percentage(50_000_000), 50);
    assert_eq!(round_percentage(49_499_999), 49);
    assert_eq!(round_percentage(49_500_000), 50);
    assert_eq!(round_percentage(50_500_000), 50);
    assert_eq!(round_percentage(50_500_001), 51);
    assert_eq!(round_percentage(u32::MAX), 4295);
}

#[test]
fn a_number_is_written_as_short_as_it_can_be() {
    assert_eq!(format_decimal(0), "0");
    assert_eq!(format_decimal(40_000_000), "40");
    assert_eq!(format_decimal(500_000), "0.5");
    assert_eq!(format_decimal(1), "0.000001");
    assert_eq!(format_decimal(100_000), "0.1");
    assert_eq!(format_decimal(12_345_600), "12.3456");
    assert_eq!(format_decimal(1_000_010), "1.00001");
    assert_eq!(format_decimal(-250_000), "-0.25");
    assert_eq!(format_decimal(-7_000_000), "-7");
    assert_eq!(format_decimal(-1), "-0.000001");
    assert_eq!(format_decimal(i64::MAX), "9223372036854.775807");
    assert_eq!(format_decimal(i64::MIN), "-9223372036854.775808");
}

#[test]
fn a_number_is_written_as_its_floating_point_value_is() {
    for value in [0_i64, 40_000_000, 500_000, 15_250_000, -8_125_000, 200_000, 75_000_000] {
        assert_eq!(format_decimal(value), format!("{}", value as f64 / 1e6));
    }
}

#[test]
fn what_is_written_reads_back() {
    let mut value: i64 = 1;
    while value < i64::MAX / 7 {
        for number in [value, -value, value - 1, value + 999_999, 1_000_000 * (value % 1_000)] {
            assert_eq!(parse_decimal(&format_decimal(number)), Some(number), "{}", number);
        }
        value = value * 7 + 3;
    }
    for number in [0, i64::MAX, i64::MIN, i64::MAX - 1, i64::MIN + 1] {
        assert_eq!(parse_decimal(&format_decimal(number)), Some(number));
    }
}
