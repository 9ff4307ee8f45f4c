use netcheck::usage::{
    period_start_date, period_start_instant, universal_time_fits, usage_totals,
};
use netcheck::text::{str_contains, str_eq};
use netcheck::usage::{
    data_usage, to_universal_time, usage_period, DataUsage, UsageBucket, UsagePeriod,
};

#[test]
fn data_usage_unavailable_here() {
    match data_usage("today") {
        Err(e) => assert_eq!(e, "OS data usage is only available on Windows"),
        Ok(_) => panic!("expected an error"),
    }
    assert!(data_usage("month").is_err());
}

#[test]
fn usage_periods() {
    assert_eq!(usage_period("month"), UsagePeriod::Month);
    assert_eq!(usage_period("today"), UsagePeriod::Today);
    assert_eq!(usage_period("Month"), UsagePeriod::Today);
    assert_eq!(usage_period(""), UsagePeriod::Today);
}

#[test]
fn filetime_stamps() {
    assert_eq!(to_universal_time(0, 0), 116_444_736_000_000_000);
    assert_eq!(to_universal_time(1, 150), 116_444_736_010_000_001);
    assert_eq!(to_universal_time(-11_644_473_600, 99), 0);
    assert_eq!(to_universal_time(1_700_000_000, 999_999_999), 133_444_736_009_999_999);
}

#[test]
fn tally_of_buckets() {
    let buckets = [
        UsageBucket { received: Some(1000), sent: Some(10) },
        UsageBucket { received: None, sent: Some(5) },
        UsageBucket { received: Some(24), sent: None },
    ];
    let u = DataUsage::from_buckets(&buckets);
    assert_eq!(u, DataUsage { down_bytes: 1024, up_bytes: 15, total_bytes: 1039 });
    assert_eq!(DataUsage::from_buckets(&[]), DataUsage::default());
}

#[test]
fn text_helpers() {
    assert!(str_eq("abc", "abc"));
    assert!(!str_eq("abc", "abd"));
    assert!(!str_eq("abc", "ab"));
    assert!(str_contains("network tunnel", "tunnel"));
    assert!(str_contains("x", ""));
    assert!(!str_contains("tun", "tunnel"));
    assert!(str_contains("Héllo wörld", "wö"));
}

#[test]
fn stamp_range_check() {
    assert!(universal_time_fits(0, 0));
    assert!(universal_time_fits(1_700_000_000, 999_999_999));
    assert!(!universal_time_fits(i64::MAX, 0));
    assert!(!universal_time_fits(i64::MIN, 0));
}

#[test]
fn usage_totals_range_check() {
    let ok = [UsageBucket { received: Some(u64::MAX - 1), sent: Some(1) }];
    assert_eq!(usage_totals(&ok), Some((u64::MAX - 1, 1)));
    let too_much = [UsageBucket { received: Some(u64::MAX), sent: Some(1) }];
    assert_eq!(usage_totals(&too_much), None);
    let skipped = [UsageBucket { received: Some(u64::MAX), sent: None }];
    assert_eq!(usage_totals(&skipped), Some((u64::MAX, 0)));
}

#[test]
fn period_start_dates() {
    assert_eq!(period_start_date(UsagePeriod::Month, 2024, 3, 15), (2024, 3, 1));
    assert_eq!(period_start_date(UsagePeriod::Today, 2024, 3, 15), (2024, 3, 15));
    assert_eq!(period_start_date(usage_period("month"), 2023, 12, 31), (2023, 12, 1));
    assert_eq!(period_start_date(usage_period("today"), 2023, 12, 31), (2023, 12, 31));
}

#[test]
fn period_start_lookup() {
    assert_eq!(period_start_instant(Some((1_709_251_200, 0))), Ok((1_709_251_200, 0)));
    assert_eq!(
        period_start_instant(None),
        Err("could not compute period start".to_string())
    );
}

#[test]
fn month_window_example() {
    // 2024-03-15T12:00 UTC, period "month": the window is 2024-03-01T00:00 UTC to now.
    assert_eq!(period_start_date(usage_period("month"), 2024, 3, 15), (2024, 3, 1));
    assert_eq!(to_universal_time(1_709_251_200, 0), 133_537_248_000_000_000);
    assert_eq!(to_universal_time(1_710_504_000, 0), 133_549_776_000_000_000);
    let ledger = [
        UsageBucket { received: Some(1000), sent: Some(200) },
        UsageBucket { received: Some(50), sent: Some(5) },
    ];
    assert_eq!(
        DataUsage::from_buckets(&ledger),
        DataUsage { down_bytes: 1050, up_bytes: 205, total_bytes: 1255 }
    );
}
