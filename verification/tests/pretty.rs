use dbn::pretty::{civil_from_days, fmt_i64, fmt_px, fmt_ts, fmt_u64, Date, UNDEF_PRICE};

fn text(bytes: Vec<u8>) -> String {
    String::from_utf8(bytes).unwrap()
}

#[test]
fn test_fmt_integers() {
    assert_eq!(text(fmt_u64(0)), "0");
    assert_eq!(text(fmt_u64(9)), "9");
    assert_eq!(text(fmt_u64(10)), "10");
    assert_eq!(text(fmt_u64(u64::MAX)), "18446744073709551615");
    assert_eq!(text(fmt_i64(0)), "0");
    assert_eq!(text(fmt_i64(-1)), "-1");
    assert_eq!(text(fmt_i64(i64::MIN)), "-9223372036854775808");
    assert_eq!(text(fmt_i64(i64::MAX)), "9223372036854775807");
}

#[test]
fn test_fmt_px() {
    assert_eq!(text(fmt_px(0)), "0.000000000");
    assert_eq!(text(fmt_px(-100_000)), "-0.000100000");
    assert_eq!(text(fmt_px(32_500_000_000)), "32.500000000");
    assert_eq!(text(fmt_px(101_005_000_000)), "101.005000000");
    assert_eq!(text(fmt_px(i64::MIN)), "-9223372036.854775808");
    assert_eq!(text(fmt_px(UNDEF_PRICE)), "UNDEF_PRICE");
}

#[test]
fn test_fmt_ts() {
    assert_eq!(text(fmt_ts(0)), "");
    assert_eq!(text(fmt_ts(1)), "1970-01-01T00:00:00.000000001Z");
    assert_eq!(
        text(fmt_ts(1622838300000000000)),
        "2021-06-04T20:25:00.000000000Z"
    );
    assert_eq!(
        text(fmt_ts(951_782_399_999_999_999)),
        "2000-02-28T23:59:59.999999999Z"
    );
    assert_eq!(
        text(fmt_ts(951_782_400_000_000_000)),
        "2000-02-29T00:00:00.000000000Z"
    );
    assert_eq!(
        text(fmt_ts(u64::MAX)),
        "2554-07-21T23:34:33.709551615Z"
    );
}

#[test]
fn test_civil_from_days() {
    assert_eq!(civil_from_days(0), Date { year: 1970, month: 1, day: 1 });
    assert_eq!(civil_from_days(364), Date { year: 1970, month: 12, day: 31 });
    assert_eq!(civil_from_days(365), Date { year: 1971, month: 1, day: 1 });
    assert_eq!(civil_from_days(789), Date { year: 1972, month: 2, day: 29 });
    assert_eq!(civil_from_days(11016), Date { year: 2000, month: 2, day: 29 });
    assert_eq!(civil_from_days(47541), Date { year: 2100, month: 3, day: 1 });
    assert_eq!(civil_from_days(19194), Date { year: 2022, month: 7, day: 21 });
}
