use slicecore_engine::calendar::{days_to_ymd, format_utc_timestamp};

#[test]
fn epoch_and_known_dates() {
    assert_eq!(days_to_ymd(0), (1970, 1, 1));
    assert_eq!(days_to_ymd(31), (1970, 2, 1));
    assert_eq!(days_to_ymd(365), (1971, 1, 1));
    assert_eq!(days_to_ymd(11016), (2000, 2, 29));
    assert_eq!(days_to_ymd(11017), (2000, 3, 1));
    assert_eq!(days_to_ymd(19723), (2024, 1, 1));
    assert_eq!(days_to_ymd(19782), (2024, 2, 29));
    assert_eq!(days_to_ymd(47540), (2100, 2, 28));
    assert_eq!(days_to_ymd(47541), (2100, 3, 1));
}

#[test]
fn consecutive_days_are_consecutive_dates() {
    let mut prev = days_to_ymd(0);
    for d in 1..20000u64 {
        let cur = days_to_ymd(d);
        assert!(cur > prev, "day {} gave {:?} after {:?}", d, cur, prev);
        assert!(cur.1 >= 1 && cur.1 <= 12 && cur.2 >= 1 && cur.2 <= 31);
        prev = cur;
    }
}

#[test]
fn timestamp_formatting() {
    assert_eq!(format_utc_timestamp(0), "1970-01-01T00:00:00Z");
    assert_eq!(format_utc_timestamp(1704067200 + 3661), "2024-01-01T01:01:01Z");
    assert_eq!(format_utc_timestamp(951868799), "2000-02-29T23:59:59Z");
}
