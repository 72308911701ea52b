use motd::duration::{format_uptime, humanize_seconds};
use motd::text::{str_contains, str_contains_ci, u64_string};
use motd::units::format_gb;

#[test]
fn gb_two_decimal_branch() {
    assert_eq!(format_gb(1_500_000_000), "1.40 GB");
}

#[test]
fn gb_rounded_branch() {
    assert_eq!(format_gb(3_000_000_000), "3 GB");
}

#[test]
fn gb_boundary_is_rounded() {
    assert_eq!(format_gb(2_147_483_648), "2 GB");
}

#[test]
fn gb_zero() {
    assert_eq!(format_gb(0), "0.00 GB");
}

#[test]
fn gb_exact_one() {
    assert_eq!(format_gb(1_073_741_824), "1.00 GB");
}

#[test]
fn gb_rounds_half_up_in_whole_branch() {
    // 2.5 GB exactly: rounds away from zero to 3.
    assert_eq!(format_gb(2_684_354_560), "3 GB");
}

#[test]
fn decimal_rendering() {
    assert_eq!(u64_string(0), "0");
    assert_eq!(u64_string(7), "7");
    assert_eq!(u64_string(1234567890), "1234567890");
    assert_eq!(u64_string(u64::MAX), "18446744073709551615");
}

#[test]
fn humanize_coarsest_unit() {
    assert_eq!(humanize_seconds(3661), "1 hour");
    assert_eq!(humanize_seconds(30), "less than a minute");
    assert_eq!(humanize_seconds(59), "less than a minute");
    assert_eq!(humanize_seconds(60), "1 minute");
    assert_eq!(humanize_seconds(7200), "2 hours");
    assert_eq!(humanize_seconds(172800), "2 days");
}

#[test]
fn uptime_lists_nonzero_units() {
    assert_eq!(format_uptime(90061), "1 day, 1 hour, 1 minute, 1 second");
    assert_eq!(format_uptime(3600), "1 hour");
    assert_eq!(format_uptime(86520), "1 day, 2 minutes");
    assert_eq!(format_uptime(0), "0 seconds");
    assert_eq!(format_uptime(61), "1 minute, 1 second");
}

#[test]
fn contains_finds_needle() {
    assert!(str_contains("1 day, 2 hours", "day"));
    assert!(!str_contains("59 minutes", "day"));
    assert!(str_contains("abc", ""));
    assert!(!str_contains("ab", "abc"));
}

#[test]
fn contains_ci_folds_case() {
    assert!(str_contains_ci("CPU die temp", "cpu"));
    assert!(str_contains_ci("Tdie", "tdie"));
    assert!(!str_contains_ci("GPU", "cpu"));
}
