use chrono::{TimeZone, Utc};
use curious::datetime::{DateTime, GenerateTime};

fn instant(year: i32, month: u32, day: u32) -> DateTime {
    let t = Utc.ymd(year, month, day).and_hms_milli(0, 0, 0, 0);
    DateTime::from_nanos(t.timestamp_nanos_opt().unwrap() as i128)
}

#[test]
fn test_gen_with_limit() {
    let start = instant(2001, 9, 9);
    let end = instant(2001, 9, 10);

    let date_times = start.generate_until_with_limit(&end, 100);

    assert!(date_times.is_ok());
    assert_eq!(date_times.unwrap().len(), 100)
}

#[test]
fn test_gen() {
    let start = instant(2001, 9, 9);
    let end = instant(2001, 9, 10);

    let date_times = start.generate_until(&end);

    assert!(date_times.is_ok());
}

#[test]
fn test_start_greater_than_end() {
    let start = instant(2001, 9, 10);
    let end = instant(2001, 9, 9);

    let date_times = start.generate_until(&end);
    assert!(date_times.is_err());

    let date_times = start.generate_until_with_limit(&end, 100);
    assert!(date_times.is_err());
}

#[test]
fn walk_starts_at_start_and_ends_at_end() {
    let start = instant(2001, 9, 9);
    let end = DateTime::from_nanos(start.nanos() + 3_600 * 1_000_000_000);
    let series = start.generate_until(&end).unwrap();
    assert_eq!(series[0], start);
    assert_eq!(*series.last().unwrap(), end);
    for w in series.windows(2) {
        assert!(w[0].nanos() <= w[1].nanos());
    }
    for i in 1..series.len() - 1 {
        let gap = series[i].nanos() - series[i - 1].nanos();
        assert!(gap >= 0 && gap < 15_000_000_000);
        assert_eq!(gap % 1_000_000_000, 0);
    }
    let n = series.len();
    assert!(end.nanos() - series[n - 2].nanos() < 15_000_000_000);
    assert!(n > 3600 / 15);
}

#[test]
fn walk_over_one_nanosecond_repeats_the_start_then_ends() {
    let start = DateTime::from_nanos(10);
    let end = DateTime::from_nanos(11);
    let series = start.generate_until(&end).unwrap();
    let n = series.len();
    assert!(n >= 2);
    assert!(series[..n - 1].iter().all(|t| *t == start));
    assert_eq!(series[n - 1], end);
}

#[test]
fn bounded_series_is_sorted_and_inside_the_window() {
    let start = instant(2001, 9, 9);
    let end = instant(2001, 9, 10);
    let series = start.generate_until_with_limit(&end, 500).unwrap();
    assert_eq!(series.len(), 500);
    for t in &series {
        assert!(start.nanos() <= t.nanos() && t.nanos() < end.nanos());
    }
    for w in series.windows(2) {
        assert!(w[0].nanos() <= w[1].nanos());
    }
}

#[test]
fn bounded_series_with_zero_limit_is_empty() {
    let start = instant(2001, 9, 9);
    let end = instant(2001, 9, 10);
    assert_eq!(start.generate_until_with_limit(&end, 0).unwrap(), vec![]);
}

#[test]
fn equal_bounds_are_an_ordering_error() {
    let start = instant(2001, 9, 9);
    let expected = "start date/time is greater than end date/time".to_string();
    assert_eq!(start.generate_until(&start), Err(expected.clone()));
    assert_eq!(start.generate_until_with_limit(&start, 3), Err(expected));
}

#[test]
fn bounded_series_over_the_widest_window() {
    let start = DateTime::from_nanos(i128::MIN);
    let end = DateTime::from_nanos(i128::MAX);
    let series = start.generate_until_with_limit(&end, 50).unwrap();
    assert_eq!(series.len(), 50);
    for w in series.windows(2) {
        assert!(w[0].nanos() <= w[1].nanos());
    }
}

#[test]
fn bounded_series_across_the_epoch() {
    let start = DateTime::from_nanos(-5);
    let end = DateTime::from_nanos(5);
    let series = start.generate_until_with_limit(&end, 200).unwrap();
    assert!(series.iter().all(|t| -5 <= t.nanos() && t.nanos() < 5));
}

#[test]
fn walk_near_the_lowest_instant() {
    let start = DateTime::from_nanos(i128::MIN);
    let end = DateTime::from_nanos(i128::MIN + 20_000_000_000);
    let series = start.generate_until(&end).unwrap();
    assert_eq!(series[0], start);
    assert_eq!(*series.last().unwrap(), end);
    let n = series.len();
    assert!(series[..n - 1].iter().all(|t| t.nanos() < end.nanos()));
}
