use doom_2038::decimal::to_decimal_string;
use doom_2038::format_duration;
use doom_2038::parse_mode;
use doom_2038::remaining_seconds;
use doom_2038::time_left;
use doom_2038::Mode;
use doom_2038::DOOM_TS;

#[test]
fn remaining_before_target_is_exact_difference() {
    assert_eq!(remaining_seconds(0), 2_147_483_647);
    assert_eq!(remaining_seconds(2_147_483_640), 7);
    assert_eq!(remaining_seconds(2_147_483_646), 1);
}

#[test]
fn remaining_at_target_is_zero() {
    assert_eq!(remaining_seconds(DOOM_TS), 0);
}

#[test]
fn remaining_after_target_is_zero() {
    assert_eq!(remaining_seconds(2_147_483_648), 0);
    assert_eq!(remaining_seconds(u64::MAX), 0);
}

#[test]
fn time_left_is_at_most_the_target() {
    assert!(time_left() <= DOOM_TS);
}

#[test]
fn format_seconds_only_below_one_minute() {
    assert_eq!(format_duration(0), "0 seconds");
    assert_eq!(format_duration(59), "59 seconds");
}

#[test]
fn format_minute_tier_at_sixty_seconds() {
    assert_eq!(format_duration(60), "1 minutes, 0 seconds");
    assert_eq!(format_duration(3599), "59 minutes, 59 seconds");
}

#[test]
fn format_hour_tier() {
    assert_eq!(format_duration(3600), "1 hours, 0 minutes, 0 seconds");
    assert_eq!(format_duration(3661), "1 hours, 1 minutes, 1 seconds");
    assert_eq!(format_duration(86399), "23 hours, 59 minutes, 59 seconds");
}

#[test]
fn format_day_tier_at_exactly_one_day() {
    assert_eq!(format_duration(86400), "1 days, 0 hours, 0 minutes, 0 seconds");
}

#[test]
fn format_day_tier() {
    assert_eq!(format_duration(90000), "1 days, 1 hours, 0 minutes, 0 seconds");
    assert_eq!(
        format_duration(31535999),
        "364 days, 23 hours, 59 minutes, 59 seconds"
    );
}

#[test]
fn format_year_tier_at_exactly_one_year() {
    assert_eq!(
        format_duration(31536000),
        "1 years, 0 days, 0 hours, 0 minutes, 0 seconds"
    );
}

#[test]
fn format_year_tier_cascades_remainders() {
    assert_eq!(
        format_duration(12345678901),
        "391 years, 174 days, 19 hours, 15 minutes, 1 seconds"
    );
    assert_eq!(
        format_duration(DOOM_TS),
        "68 years, 35 days, 3 hours, 14 minutes, 7 seconds"
    );
}

#[test]
fn format_largest_input_does_not_overflow() {
    assert_eq!(
        format_duration(u64::MAX),
        "584942417355 years, 26 days, 7 hours, 0 minutes, 15 seconds"
    );
}

#[test]
fn format_is_deterministic() {
    assert_eq!(format_duration(90000), format_duration(90000));
}

#[test]
fn clock_fixed_at_target_prints_zero_seconds() {
    let remaining = remaining_seconds(DOOM_TS);
    assert_eq!(format_duration(remaining), "0 seconds");
}

#[test]
fn decimal_rendering() {
    assert_eq!(to_decimal_string(0), "0");
    assert_eq!(to_decimal_string(7), "7");
    assert_eq!(to_decimal_string(42), "42");
    assert_eq!(to_decimal_string(1000000), "1000000");
    assert_eq!(to_decimal_string(u64::MAX), "18446744073709551615");
}

#[test]
fn no_argument_selects_one_shot_mode() {
    assert_eq!(parse_mode(None), Some(Mode::OneShot));
}

#[test]
fn each_continuous_synonym_selects_continuous_mode() {
    assert_eq!(parse_mode(Some("c")), Some(Mode::Continuous));
    assert_eq!(parse_mode(Some("count")), Some(Mode::Continuous));
    assert_eq!(parse_mode(Some("countdown")), Some(Mode::Continuous));
}

#[test]
fn unrecognized_argument_is_rejected() {
    assert_eq!(parse_mode(Some("xyz")), None);
    assert_eq!(parse_mode(Some("")), None);
    assert_eq!(parse_mode(Some("C")), None);
    assert_eq!(parse_mode(Some("countdownn")), None);
    assert_eq!(parse_mode(Some("coun")), None);
}
