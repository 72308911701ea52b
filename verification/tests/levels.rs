use motd::level::{classify_load, classify_usage, UsageLevel};
use motd::temperatures::{SensorTemperature, TemperatureStatus};

#[test]
fn usage_at_warning_threshold_is_warning() {
    // A used ratio of exactly 0.80 against warning 80 / critical 90.
    assert_eq!(classify_usage(80, 100, 80, 90), UsageLevel::Warning);
}

#[test]
fn usage_at_critical_threshold_is_critical() {
    assert_eq!(classify_usage(90, 100, 80, 90), UsageLevel::Critical);
}

#[test]
fn usage_under_warning_is_normal() {
    assert_eq!(classify_usage(79, 100, 80, 90), UsageLevel::Normal);
}

#[test]
fn usage_of_empty_total_is_normal() {
    assert_eq!(classify_usage(0, 0, 80, 90), UsageLevel::Normal);
}

#[test]
fn usage_with_large_counts() {
    // 3 GB used of 4 GB is 75%: under the warning threshold.
    assert_eq!(
        classify_usage(3_000_000_000, 4_000_000_000, 80, 90),
        UsageLevel::Normal
    );
    assert_eq!(
        classify_usage(3_300_000_000, 4_000_000_000, 80, 90),
        UsageLevel::Warning
    );
    assert_eq!(
        classify_usage(3_700_000_000, 4_000_000_000, 80, 90),
        UsageLevel::Critical
    );
}

#[test]
fn load_buckets_against_core_count() {
    assert_eq!(classify_load(89, 1), UsageLevel::Normal);
    assert_eq!(classify_load(90, 1), UsageLevel::Warning);
    assert_eq!(classify_load(149, 1), UsageLevel::Warning);
    assert_eq!(classify_load(150, 1), UsageLevel::Critical);
    // Eight cores: green up to a load of 7.20.
    assert_eq!(classify_load(719, 8), UsageLevel::Normal);
    assert_eq!(classify_load(720, 8), UsageLevel::Warning);
}

#[test]
fn temperature_status_against_limits() {
    let sensor = SensorTemperature {
        name: String::from("CPU"),
        temperature_tenths: 950,
        high_tenths: 900,
        critical_tenths: 1000,
    };
    assert!(matches!(sensor.status(), TemperatureStatus::High));
    let cool = SensorTemperature {
        name: String::from("CPU"),
        temperature_tenths: 400,
        high_tenths: 900,
        critical_tenths: 1000,
    };
    assert!(matches!(cool.status(), TemperatureStatus::Normal));
    let hot = SensorTemperature {
        name: String::from("CPU"),
        temperature_tenths: 1000,
        high_tenths: 900,
        critical_tenths: 1000,
    };
    assert!(matches!(hot.status(), TemperatureStatus::Critical));
}
