use booking_api::calendar::{CalendarDate, Timestamp};

#[test]
fn calendar_day_numbers_follow_chrono() {
    assert_eq!(CalendarDate::from_ymd(1, 1, 1).unwrap().days_from_ce(), 1);
    assert_eq!(CalendarDate::from_ymd(1999, 9, 3).unwrap().days_from_ce(), 730_000);
    assert_eq!(CalendarDate::from_ymd(1970, 1, 1).unwrap().days_from_ce(), 719_163);
}

#[test]
fn calendar_rejects_impossible_dates() {
    assert!(CalendarDate::from_ymd(2015, 0, 14).is_none());
    assert!(CalendarDate::from_ymd(2015, 2, 29).is_none());
    assert!(CalendarDate::from_ymd(-4, 2, 29).is_some());
    assert!(CalendarDate::from_ymd(400000, 1, 1).is_none());
}

#[test]
fn calendar_dates_order_by_day() {
    let a = CalendarDate::from_ymd(2026, 2, 28).unwrap();
    let b = CalendarDate::from_ymd(2026, 3, 1).unwrap();
    assert!(a.is_before(&b));
    assert!(!b.is_before(&a));
    assert!(!a.is_before(&a));
    assert_eq!(b.days_from_ce() - a.days_from_ce(), 1);
}

#[test]
fn timestamp_utc_date() {
    let t = Timestamp::from_unix(1431648000, 0).unwrap();
    assert_eq!(t.date_naive(), CalendarDate::from_ymd(2015, 5, 15).unwrap());
    let last = Timestamp::from_unix(1431648000 - 1, 0).unwrap();
    assert_eq!(last.date_naive(), CalendarDate::from_ymd(2015, 5, 14).unwrap());
    let before_epoch = Timestamp::from_unix(-1, 0).unwrap();
    assert_eq!(before_epoch.date_naive(), CalendarDate::from_ymd(1969, 12, 31).unwrap());
    assert_eq!(Timestamp::from_unix(0, 0).unwrap().date_naive(), CalendarDate::from_ymd(1970, 1, 1).unwrap());
}

#[test]
fn timestamp_rejects_invalid_parts() {
    assert!(Timestamp::from_unix(0, 2_000_000_000).is_none());
    assert!(Timestamp::from_unix(0, 1_500_000_000).is_none());
    assert!(Timestamp::from_unix(59, 1_500_000_000).is_some());
    assert!(Timestamp::from_unix(i64::MAX, 0).is_none());
}

#[test]
fn timestamp_order_by_seconds_then_nanos() {
    let a = Timestamp::from_unix(100, 5).unwrap();
    let b = Timestamp::from_unix(100, 6).unwrap();
    let c = Timestamp::from_unix(101, 0).unwrap();
    assert!(a.is_before(&b));
    assert!(b.is_before(&c));
    assert!(!c.is_before(&a));
    assert!(!a.is_before(&a));
    assert_eq!(a.unix_seconds(), 100);
    assert_eq!(a.unix_subsec_nanos(), 5);
}

#[test]
fn calendar_year_range_limits() {
    assert!(CalendarDate::from_ymd(262_142, 12, 31).is_some());
    assert!(CalendarDate::from_ymd(262_143, 1, 1).is_none());
    assert!(CalendarDate::from_ymd(-262_143, 1, 1).is_some());
    assert!(CalendarDate::from_ymd(-262_144, 12, 31).is_none());
    assert_eq!(CalendarDate::from_ymd(0, 12, 31).unwrap().days_from_ce(), 0);
    assert_eq!(CalendarDate::from_ymd(2000, 2, 29).unwrap().days_from_ce(), 730_179);
    assert!(CalendarDate::from_ymd(1900, 2, 29).is_none());
    assert!(CalendarDate::from_ymd(2026, 4, 31).is_none());
    assert!(CalendarDate::from_ymd(2026, 3, 0).is_none());
}

#[test]
fn calendar_order_follows_year_month_day() {
    let dates = [(2025, 12, 31), (2026, 1, 1), (2026, 1, 31), (2026, 2, 1), (2028, 2, 29), (2028, 3, 1)];
    for w in dates.windows(2) {
        let a = CalendarDate::from_ymd(w[0].0, w[0].1, w[0].2).unwrap();
        let b = CalendarDate::from_ymd(w[1].0, w[1].1, w[1].2).unwrap();
        assert!(a.is_before(&b));
    }
}

#[test]
fn timestamp_range_limits() {
    // Last second of chrono's last date, and one past it.
    let last = (95_745_399i64 - 719_163) * 86_400 + 86_399;
    assert!(Timestamp::from_unix(last, 0).is_some());
    assert!(Timestamp::from_unix(last + 1, 0).is_none());
    let first = (-95_746_129i64 - 719_163) * 86_400;
    assert!(Timestamp::from_unix(first, 0).is_some());
    assert!(Timestamp::from_unix(first - 1, 0).is_none());
}
