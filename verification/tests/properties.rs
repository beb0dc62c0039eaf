use bytes::BytesMut;
use pg_temporal::arith::{div_floor, div_trunc};
use pg_temporal::datetime::{days_and_time, wire_from_days};
use pg_temporal::{
    base, base_ts, ConversionError, Date, DateTime, IsNull, Time, Timestamp, Type, Y2K_EPOCH,
};

fn date(year: i16, month: i8, day: i8) -> Date {
    Date::new(year, month, day).unwrap()
}

fn time(hour: i8, minute: i8, second: i8, nanosecond: i32) -> Time {
    Time::new(hour, minute, second, nanosecond).unwrap()
}

fn date_time(d: Date, t: Time) -> DateTime {
    DateTime { date: d, time: t }
}

#[test]
fn date_round_trips() {
    let cases = [
        date(2000, 1, 1),
        date(1999, 12, 31),
        date(2024, 2, 29),
        date(1900, 3, 1),
        date(-9999, 1, 1),
        date(9999, 12, 31),
        date(-4, 2, 29),
    ];
    for v in cases {
        let n = v.to_wire().unwrap();
        assert_eq!(Date::from_wire(n), Ok(v));
    }
}

#[test]
fn time_round_trips() {
    let cases = [time(0, 0, 0, 0), time(23, 59, 59, 999_999_000), time(12, 30, 15, 1_000)];
    for v in cases {
        let t = v.to_wire().unwrap();
        assert_eq!(Time::from_wire(t), Ok(v));
    }
}

#[test]
fn date_time_round_trips() {
    let cases = [
        date_time(date(2000, 1, 1), time(0, 0, 0, 0)),
        date_time(date(1999, 12, 31), time(23, 59, 59, 999_999_000)),
        date_time(date(-9999, 1, 1), time(0, 0, 0, 0)),
        date_time(date(9999, 12, 31), time(23, 59, 59, 999_999_000)),
        date_time(date(1582, 10, 10), time(7, 8, 9, 123_456_000)),
    ];
    for v in cases {
        let t = v.to_wire().unwrap();
        assert_eq!(DateTime::from_wire(t), Ok(v));
    }
}

#[test]
fn timestamp_round_trips() {
    let cases = [
        Timestamp::new(0, 0).unwrap(),
        Timestamp::new(Y2K_EPOCH, 0).unwrap(),
        Timestamp::new(-1, -999_999_000).unwrap(),
        Timestamp::new(-377_705_023_201, 0).unwrap(),
        Timestamp::new(253_402_207_200, 999_999_000).unwrap(),
    ];
    for v in cases {
        let t = v.to_wire().unwrap();
        assert_eq!(Timestamp::from_wire(t), Ok(v));
    }
}

#[test]
fn far_date_time_has_exact_count() {
    let v = date_time(date(9999, 12, 31), time(23, 59, 59, 999_999_000));
    assert_eq!(v.to_wire(), Ok(2_921_939 * 86_400_000_000 + 86_399_999_999));
    let w = date_time(date(-9999, 1, 1), time(0, 0, 0, 1_000));
    assert_eq!(w.to_wire(), Ok(-4_382_544 * 86_400_000_000 + 1));
}

#[test]
fn truncation_drops_what_is_below_a_microsecond() {
    let coarse = date_time(date(1965, 9, 25), time(11, 19, 33, 100_314_000));
    let same = jiff::civil::DateTime::strptime("%Y-%m-%dT%H:%M:%S.%f", "1965-09-25T11:19:33.1003140")
        .unwrap();
    let fine = date_time(
        date(same.year(), same.month(), same.day()),
        time(same.hour(), same.minute(), same.second(), same.subsec_nanosecond()),
    );
    assert_eq!(coarse.to_wire(), Ok(-1_081_341_626_899_686));
    assert_eq!(fine.to_wire(), coarse.to_wire());

    let after = date_time(date(2010, 2, 9), time(23, 11, 45, 120_200_999));
    assert_eq!(after.to_wire(), Ok(319_072_305_120_200));
    assert_eq!(time(0, 0, 0, 1_999).to_wire(), Ok(1));
    assert_eq!(time(0, 0, 0, 999).to_wire(), Ok(0));
}

#[test]
fn truncation_is_toward_the_epoch_before_it() {
    // 1.5 microseconds before the epoch.
    let v = date_time(date(1999, 12, 31), time(23, 59, 59, 999_998_500));
    assert_eq!(v.to_wire(), Ok(-1));
    let half = date_time(date(1999, 12, 31), time(23, 59, 59, 999_999_500));
    assert_eq!(half.to_wire(), Ok(0));
    let ts = Timestamp::new(Y2K_EPOCH - 1, 999_998_500).unwrap();
    assert_eq!(ts.to_wire(), Ok(-1));
    let ts_after = Timestamp::new(Y2K_EPOCH, 1_500).unwrap();
    assert_eq!(ts_after.to_wire(), Ok(1));
}

#[test]
fn epochs_encode_to_zero() {
    assert_eq!(date(2000, 1, 1).to_wire(), Ok(0));
    assert_eq!(date_time(date(2000, 1, 1), time(0, 0, 0, 0)).to_wire(), Ok(0));
    assert_eq!(base().to_wire(), Ok(0));
    assert_eq!(base_ts().to_wire(), Ok(0));
    assert_eq!(time(0, 0, 0, 0).to_wire(), Ok(0));
    let at_epoch: jiff::Timestamp = "2000-01-01T00:00:00Z".parse().unwrap();
    let ts = Timestamp::new(at_epoch.as_second(), at_epoch.subsec_nanosecond()).unwrap();
    assert_eq!(ts, base_ts());
    assert_eq!(ts.to_wire(), Ok(0));
}

#[test]
fn epoch_values() {
    assert_eq!(base(), date_time(date(2000, 1, 1), time(0, 0, 0, 0)));
    assert_eq!(base_ts().second, 946684800);
    assert_eq!(base_ts().nanosecond, 0);
    assert_eq!(Y2K_EPOCH, 946684800);
    assert_eq!(DateTime::from_wire(0), Ok(base()));
    assert_eq!(Timestamp::from_wire(0), Ok(base_ts()));
    assert_eq!(Date::from_wire(0), Ok(base().date));
}

#[test]
fn negative_counts_lie_before_the_epoch() {
    assert_eq!(Date::from_wire(-1), Ok(date(1999, 12, 31)));
    assert_eq!(Date::from_wire(1), Ok(date(2000, 1, 2)));
    assert_eq!(
        DateTime::from_wire(-1),
        Ok(date_time(date(1999, 12, 31), time(23, 59, 59, 999_999_000)))
    );
    assert_eq!(
        DateTime::from_wire(-86_400_000_000),
        Ok(date_time(date(1999, 12, 31), time(0, 0, 0, 0)))
    );
    assert_eq!(
        Timestamp::from_wire(-1),
        Ok(Timestamp { second: Y2K_EPOCH - 1, nanosecond: 999_999_000 })
    );
    assert_eq!(
        Timestamp::from_wire(-946_684_800_000_001),
        Ok(Timestamp { second: 0, nanosecond: -1_000 })
    );
}

#[test]
fn time_of_day_bounds() {
    assert_eq!(Time::from_wire(0), Ok(time(0, 0, 0, 0)));
    assert_eq!(Time::from_wire(86_399_999_999), Ok(time(23, 59, 59, 999_999_000)));
    assert_eq!(Time::from_wire(86_400_000_000), Err(ConversionError::RangeOverflow));
    assert_eq!(Time::from_wire(-1), Err(ConversionError::RangeOverflow));
    assert_eq!(Time::from_wire(i64::MAX), Err(ConversionError::RangeOverflow));
    assert_eq!(Time::from_wire(i64::MIN), Err(ConversionError::RangeOverflow));
    assert_eq!(Time::from_wire(3_600_000_001), Ok(time(1, 0, 0, 1_000)));
}

#[test]
fn calendar_limits() {
    assert_eq!(Date::from_wire(2_921_939), Ok(date(9999, 12, 31)));
    assert_eq!(Date::from_wire(2_921_940), Err(ConversionError::RangeOverflow));
    assert_eq!(Date::from_wire(-4_382_544), Ok(date(-9999, 1, 1)));
    assert_eq!(Date::from_wire(-4_382_545), Err(ConversionError::RangeOverflow));
    assert_eq!(
        DateTime::from_wire(2_921_940 * 86_400_000_000),
        Err(ConversionError::RangeOverflow)
    );
    assert_eq!(
        DateTime::from_wire(-4_382_544 * 86_400_000_000 - 1),
        Err(ConversionError::RangeOverflow)
    );
}

#[test]
fn timestamp_limits() {
    let first = (-377_705_023_201 - Y2K_EPOCH) * 1_000_000;
    let last = (253_402_207_200 - Y2K_EPOCH) * 1_000_000 + 999_999;
    assert_eq!(
        Timestamp::from_wire(first),
        Ok(Timestamp { second: -377_705_023_201, nanosecond: 0 })
    );
    assert_eq!(Timestamp::from_wire(first - 1), Err(ConversionError::RangeOverflow));
    assert_eq!(
        Timestamp::from_wire(last),
        Ok(Timestamp { second: 253_402_207_200, nanosecond: 999_999_000 })
    );
    assert_eq!(Timestamp::from_wire(last + 1), Err(ConversionError::RangeOverflow));
    assert_eq!(jiff::Timestamp::MIN.as_second(), -377_705_023_201);
    assert_eq!(jiff::Timestamp::MAX.as_second(), 253_402_207_200);
}

#[test]
fn timestamp_new_brings_both_parts_to_one_sign() {
    assert_eq!(Timestamp::new(2, -999_999_999), Some(Timestamp { second: 1, nanosecond: 1 }));
    assert_eq!(Timestamp::new(-2, 999_999_999), Some(Timestamp { second: -1, nanosecond: -1 }));
    assert_eq!(Timestamp::new(-377_705_023_201, -1), None);
    assert_eq!(
        Timestamp::new(-377_705_023_201, 1),
        Some(Timestamp { second: -377_705_023_200, nanosecond: -999_999_999 })
    );
    assert_eq!(Timestamp::new(253_402_207_201, 0), None);
    assert_eq!(Timestamp::new(0, 1_000_000_000), None);
}

#[test]
fn constructors_refuse_what_is_not_a_value() {
    assert_eq!(Date::new(2023, 2, 29), None);
    assert_eq!(Date::new(2024, 2, 29), Some(Date { year: 2024, month: 2, day: 29 }));
    assert_eq!(Date::new(1900, 2, 29), None);
    assert_eq!(Date::new(2000, 2, 29), Some(Date { year: 2000, month: 2, day: 29 }));
    assert_eq!(Date::new(-100, 2, 29), None);
    assert_eq!(Date::new(2000, 4, 31), None);
    assert_eq!(Date::new(2000, 13, 1), None);
    assert_eq!(Date::new(2000, 0, 1), None);
    assert_eq!(Date::new(2000, 1, 0), None);
    assert_eq!(Date::new(10000, 1, 1), None);
    assert_eq!(Date::new(-10000, 1, 1), None);
    assert_eq!(Time::new(24, 0, 0, 0), None);
    assert_eq!(Time::new(0, 60, 0, 0), None);
    assert_eq!(Time::new(0, 0, 60, 0), None);
    assert_eq!(Time::new(0, 0, 0, 1_000_000_000), None);
    assert_eq!(Time::new(-1, 0, 0, 0), None);
}

#[test]
fn constructors_agree_with_the_calendar() {
    for year in [-9999i16, -401, -400, -100, -4, -1, 0, 1, 4, 100, 1900, 2000, 2023, 2024, 9999] {
        for month in 1i8..=12 {
            for day in 28i8..=32 {
                assert_eq!(
                    Date::new(year, month, day).is_some(),
                    jiff::civil::Date::new(year, month, day).is_ok()
                );
            }
        }
    }
}

#[test]
fn malformed_bytes_are_refused() {
    let short = [0u8, 0, 0];
    let long = [0u8; 9];
    let four = [0u8; 4];
    let eight = [0u8; 8];
    let none: [u8; 0] = [];
    assert_eq!(Date::from_sql(&Type::Date, &short[..]), Err(ConversionError::InvalidRawValue));
    assert_eq!(Date::from_sql(&Type::Date, &eight[..]), Err(ConversionError::InvalidRawValue));
    assert_eq!(Date::from_sql(&Type::Date, &none[..]), Err(ConversionError::InvalidRawValue));
    assert_eq!(Time::from_sql(&Type::Time, &four[..]), Err(ConversionError::InvalidRawValue));
    assert_eq!(Time::from_sql(&Type::Time, &long[..]), Err(ConversionError::InvalidRawValue));
    assert_eq!(
        DateTime::from_sql(&Type::Timestamp, &four[..]),
        Err(ConversionError::InvalidRawValue)
    );
    assert_eq!(
        Timestamp::from_sql(&Type::Timestamptz, &long[..]),
        Err(ConversionError::InvalidRawValue)
    );
    assert!(!ConversionError::InvalidRawValue.is_overflow());
    assert!(!ConversionError::InvalidRawValue.message().contains("range"));
}

#[test]
fn bytes_are_big_endian() {
    assert_eq!(Date::from_sql(&Type::Date, &[0x00, 0x00, 0x0e, 0x6c][..]), Ok(date(2010, 2, 9)));
    assert_eq!(Date::from_sql(&Type::Date, &[0xff, 0xff, 0xff, 0xff][..]), Ok(date(1999, 12, 31)));
    assert_eq!(
        Time::from_sql(&Type::Time, &[0, 0, 0, 0x09, 0x7e, 0x44, 0x23, 0x1a][..]),
        Ok(time(11, 19, 33, 100_314_000))
    );
    assert_eq!(
        DateTime::from_sql(&Type::Timestamp, &[0xff, 0xfc, 0xa2, 0xfe, 0xc4, 0xc8, 0x47, 0x10][..]),
        Ok(date_time(date(1970, 1, 1), time(0, 0, 0, 10_000_000)))
    );
    assert_eq!(
        Timestamp::from_sql(
            &Type::Timestamptz,
            &[0xff, 0xfc, 0xa2, 0xfe, 0xc4, 0xc8, 0x47, 0x10][..]
        ),
        Ok(Timestamp { second: 0, nanosecond: 10_000_000 })
    );
}

#[test]
fn encoding_appends_to_the_buffer() {
    let mut buf = BytesMut::new();
    buf.extend_from_slice(&[0xaa, 0xbb]);
    assert_eq!(date(2010, 2, 9).to_sql(&Type::Date, &mut buf), Ok(IsNull::No));
    assert_eq!(&buf[..], &[0xaa, 0xbb, 0x00, 0x00, 0x0e, 0x6c][..]);
    assert_eq!(time(0, 0, 0, 10_000_000).to_sql(&Type::Time, &mut buf), Ok(IsNull::No));
    assert_eq!(&buf[6..], &[0, 0, 0, 0, 0, 0, 0x27, 0x10][..]);
    let dt = date_time(date(1970, 1, 1), time(0, 0, 0, 10_000_000));
    assert_eq!(dt.to_sql(&Type::Timestamp, &mut buf), Ok(IsNull::No));
    assert_eq!(&buf[14..], &[0xff, 0xfc, 0xa2, 0xfe, 0xc4, 0xc8, 0x47, 0x10][..]);
    let ts = Timestamp::new(1_265_757_105, 120_200_000).unwrap();
    assert_eq!(ts.to_sql(&Type::Timestamptz, &mut buf), Ok(IsNull::No));
    assert_eq!(&buf[22..], &[0x00, 0x01, 0x22, 0x31, 0xcf, 0x67, 0x83, 0xc8][..]);
    assert_eq!(buf.len(), 30);
}

#[test]
fn end_to_end_date_time() {
    let v = date_time(date(1970, 1, 1), time(0, 0, 0, 10_000_000));
    let mut buf = BytesMut::new();
    assert_eq!(v.to_sql(&Type::Timestamp, &mut buf), Ok(IsNull::No));
    assert_eq!(v.to_wire(), Ok(-946_684_799_990_000));
    assert_eq!(v.to_wire(), Ok(10_000 - Y2K_EPOCH * 1_000_000));
    let decoded = DateTime::from_sql(&Type::Timestamp, &buf[..]).unwrap();
    assert_eq!(decoded, v);
    let mut again = BytesMut::new();
    assert_eq!(decoded.to_sql(&Type::Timestamp, &mut again), Ok(IsNull::No));
    assert_eq!(&again[..], &buf[..]);
}

#[test]
fn counts_agree_with_the_calendar_library() {
    let origin = jiff::civil::date(2000, 1, 1);
    for (y, m, d) in [(1965i16, 9i8, 25i8), (2010, 2, 9), (-9999, 1, 1), (9999, 12, 31), (1, 1, 1)] {
        let theirs = (jiff::civil::date(y, m, d) - origin).get_days();
        assert_eq!(date(y, m, d).to_wire(), Ok(theirs));
    }
    let ts: jiff::Timestamp = "2010-02-09T23:11:45.1202Z".parse().unwrap();
    let ours = Timestamp::new(ts.as_second(), ts.subsec_nanosecond()).unwrap();
    assert_eq!(ours.to_wire(), Ok(ts.as_microsecond() - Y2K_EPOCH * 1_000_000));
}

#[test]
fn accepted_column_types() {
    assert!(Date::accepts(&Type::Date));
    assert!(!Date::accepts(&Type::Timestamp));
    assert!(Time::accepts(&Type::Time));
    assert!(!Time::accepts(&Type::Date));
    assert!(DateTime::accepts(&Type::Timestamp));
    assert!(!DateTime::accepts(&Type::Timestamptz));
    assert!(Timestamp::accepts(&Type::Timestamptz));
    assert!(!Timestamp::accepts(&Type::Timestamp));
}

#[test]
fn error_messages() {
    assert!(ConversionError::RangeOverflow.message().contains("is not in the required range of"));
    assert!(ConversionError::PrecisionOverflow
        .message()
        .contains("is not in the required range of"));
    assert!(ConversionError::RangeOverflow.is_overflow());
    assert!(ConversionError::PrecisionOverflow.is_overflow());
    assert_ne!(
        ConversionError::RangeOverflow.message(),
        ConversionError::PrecisionOverflow.message()
    );
}

#[test]
fn floor_and_truncating_division() {
    assert_eq!(div_floor(7, 2), (3, 1));
    assert_eq!(div_floor(-7, 2), (-4, 1));
    assert_eq!(div_floor(-8, 2), (-4, 0));
    assert_eq!(div_floor(0, 5), (0, 0));
    assert_eq!(div_floor(-1, 86_400_000_000), (-1, 86_399_999_999));
    assert_eq!(div_trunc(1_500, 1_000), 1);
    assert_eq!(div_trunc(-1_500, 1_000), -1);
    assert_eq!(div_trunc(-1_000, 1_000), -1);
    assert_eq!(div_trunc(-999, 1_000), 0);
    assert_eq!(div_trunc(999, 1_000), 0);
}

#[test]
fn date_time_parts() {
    assert_eq!(wire_from_days(-10957, &time(0, 0, 0, 10_000_000)), Ok(-946_684_799_990_000));
    assert_eq!(wire_from_days(0, &time(0, 0, 0, 0)), Ok(0));
    assert_eq!(wire_from_days(-1, &time(23, 59, 59, 999_998_500)), Ok(-1));
    assert_eq!(wire_from_days(1, &time(0, 0, 0, 1_999)), Ok(86_400_000_001));
    assert_eq!(
        wire_from_days(i32::MAX, &time(0, 0, 0, 0)),
        Err(ConversionError::PrecisionOverflow)
    );
    assert_eq!(
        wire_from_days(i32::MIN, &time(0, 0, 0, 0)),
        Err(ConversionError::PrecisionOverflow)
    );
    assert_eq!(wire_from_days(106_751_991, &time(0, 0, 0, 0)), Ok(9_223_372_022_400_000_000));
    assert_eq!(
        wire_from_days(106_751_991, &time(4, 0, 54, 775_807_999)),
        Ok(i64::MAX)
    );
    assert_eq!(
        wire_from_days(106_751_991, &time(4, 0, 54, 775_808_000)),
        Err(ConversionError::PrecisionOverflow)
    );

    assert_eq!(days_and_time(0), (0, time(0, 0, 0, 0)));
    assert_eq!(days_and_time(-1), (-1, time(23, 59, 59, 999_999_000)));
    assert_eq!(days_and_time(-946_684_799_990_000), (-10957, time(0, 0, 0, 10_000_000)));
    assert_eq!(days_and_time(i64::MAX), (106_751_991, time(4, 0, 54, 775_807_000)));
    assert_eq!(days_and_time(i64::MIN), (-106_751_992, time(19, 59, 5, 224_192_000)));
    assert_eq!(Time::at_micros(40_773_100_314), time(11, 19, 33, 100_314_000));
}
