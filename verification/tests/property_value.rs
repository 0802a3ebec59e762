use aimcal_ical::property_value::{
    check_float, property_value_boolean, property_value_float, property_value_date, property_value_duration, property_value_integer,
    property_value_time, property_value_utc_offset,
};
use aimcal_ical::value::ValueDuration::{DateTime, Week};
use aimcal_ical::value::{ValueDate, ValueDuration, ValueTime, ValueUtcOffset};

fn time(hour: i8, minute: i8, second: i8, utc: bool) -> ValueTime {
    ValueTime {
        hour,
        minute,
        second,
        utc,
    }
}

#[test]
fn test_boolean() {
    for (src, expected) in [("TRUE", true), ("FALSE", false)] {
        match property_value_boolean(src) {
            Some(b) => assert_eq!(b, expected),
            e => panic!("Expected Some({expected}), got {e:?}"),
        }
    }

    let fail_cases = ["True", "False", "true", "false", "1", "0", "YES", "NO", ""];
    for src in fail_cases {
        assert!(property_value_boolean(src).is_none(), "Parse {src} should fail");
    }
}

#[test]
fn test_duration() {
    let success_cases = [
        // in RFC 5545 Section 3.3.6 examples
        ("P15DT5H0M20S", DateTime { positive: true, day: 15, hour: 5, minute: 0, second: 20 }),
        ("P2W", Week { positive: true, week: 2 }),
        // extra tests
        ("+P3W", Week { positive: true, week: 3 }),
        ("-P1W", Week { positive: false, week: 1 }),
        ("+P3DT4H5M6S",  DateTime { positive:  true, day: 3, hour:  4, minute:  5, second:  6 }),
        ("-PT10H11M12S", DateTime { positive: false, day: 0, hour: 10, minute: 11, second: 12 }),
    ];
    for (src, expected) in success_cases {
        match property_value_duration(src) {
            Some(d) => assert_eq!(d, expected),
            e => panic!("Expected Some({expected:?}), got {e:?}"),
        }
    }

    let fail_cases = [
        "P",           // missing duration value
        "PT",          // missing time value
        "P3X",         // invalid designator
        "P-3W",        // invalid negative sign position
        "P3DT4H5M6",   // missing 'S' designator
        "3W",          // missing 'P' designator
        "P10H11M12S3", // missing 'T' designator
    ];
    for src in fail_cases {
        assert!(property_value_duration(src).is_none(), "Parse {src} should fail");
    }
}

#[test]
fn test_integer() {
    let success_cases = [
        // Examples from RFC 5545 Section 3.3.8
        ("1234567890", 1_234_567_890),
        ("-1234567890", -1_234_567_890),
        ("+1234567890", 1_234_567_890),
        ("432109876", 432_109_876),
        // extra tests
        ( "0", 0),
        ("+0", 0),
        ("-0", 0),
        ("+0000000000000000000000", 0), // long zero
        ("12345", 12345),
        ("-6789", -6789),
        ("+2147483647",  2_147_483_647), // i32 max
        ("-2147483648", -2_147_483_648), // i32 min
    ];
    for (src, expected) in success_cases {
        match property_value_integer(src) {
            Some(i) => assert_eq!(i, expected),
            e => panic!("Expected Some({expected}), got {e:?}"),
        }
    }

    let fail_cases = [
        "nan",                   // RFC5545 does not allow non-numeric values
        "infinity",              // RFC5545 does not allow non-numeric values
        "+2147483648",           // i32 max + 1
        "-2147483649",           // i32 min - 1
        "12345678901234567890",  // overflow, too long
        "-12345678901234567890", // underflow, too long
        "+",                     // missing digits
        "-",                     // missing digits
        "",                      // empty string
        "12a34",                 // invalid character
    ];
    for src in fail_cases {
        assert!(property_value_integer(src).is_none(), "Parse {src} should fail");
    }
}

#[test]
fn test_time() {
    let success_cases = [
        // Examples from RFC 5545 Section 3.3.12
        ("135501",  time(13, 55,  1, false)),
        ("135501Z", time(13, 55,  1, true)),
        // extra tests
        ("000000",  time( 0,  0,  0, false)),
        ("235959",  time(23, 59, 59, false)),
        ("120000Z", time(12,  0,  0, true)),
        ("000060",  time( 0,  0, 59, false)), // leap second
    ];
    for (src, expected) in success_cases {
        match property_value_time(src) {
            Some(t) => assert_eq!(t, expected),
            e => panic!("Expected Some({expected:?}), got {e:?}"),
        }
    }

    let fail_cases = [
        // examples from RFC 5545 Section 3.3.12
        "230000-0800", // invalid time format
        // extra tests
        "240000",   // invalid hour
        "126060",   // invalid minute
        "123461",   // invalid second
        "12000",    // missing digit
        "120000ZZ", // extra character
        "",         // empty string
    ];
    for src in fail_cases {
        assert!(property_value_time(src).is_none(), "Parse {src} should fail");
    }
}

#[test]
fn test_utc_offset() {
    let success_cases = [
        // Examples from RFC 5545 Section 3.3.14
        (  "-0500", ValueUtcOffset { positive: false, hour:  5, minute:  0, second:  0 }),
        (  "+0100", ValueUtcOffset { positive:  true, hour:  1, minute:  0, second:  0 }),
        // extra tests
        (  "+0000", ValueUtcOffset { positive:  true, hour:  0, minute:  0, second:  0 }),
        ("-123456", ValueUtcOffset { positive: false, hour: 12, minute: 34, second: 56 }),
    ];
    for (src, expected) in success_cases {
        match property_value_utc_offset(src) {
            Some(v) => assert_eq!(v, expected),
            e => panic!("Expected Some({expected:?}), got {e:?}"),
        }
    }

    let fail_cases = [
        "0500",     // missing sign
        "+2400",    // invalid hour
        "-1260",    // invalid minute
        "+123461",  // invalid second
        "+120",     // missing digit
        "+120000Z", // extra character
        "",         // empty string
    ];
    for src in fail_cases {
        assert!(property_value_utc_offset(src).is_none(), "Parse {src} should fail");
    }
}

#[test]
fn date_values_read_eight_digits() {
    assert_eq!(
        property_value_date("19970714"),
        Some(ValueDate {
            year: 1997,
            month: 7,
            day: 14
        })
    );
    assert_eq!(
        property_value_date("20240229"),
        Some(ValueDate {
            year: 2024,
            month: 2,
            day: 29
        })
    );
    for src in ["1997071", "199707140", "1997-07-14", "", "19970714Z"] {
        assert!(property_value_date(src).is_none(), "Parse {src} should fail");
    }
}

#[test]
fn duration_reads_at_most_ten_digits() {
    // an eleventh digit is not part of the number, so the designator is missing
    assert!(property_value_duration("P12345678901W").is_none());
    assert_eq!(
        property_value_duration("P4294967295W"),
        Some(ValueDuration::Week {
            positive: true,
            week: 4_294_967_295
        })
    );
}

/// A `FLOAT` as the library checks its notation, converted to `f64` when finite.
fn read_float(src: &str) -> Option<f64> {
    if !property_value_float(src) {
        return None;
    }
    let f: f64 = src.parse().ok()?;
    if f.is_finite() { Some(f) } else { None }
}

#[test]
fn test_float() {
    let success_cases = [
        // Examples from RFC 5545 Section 3.3.7
        ("1000000.0000001", 1_000_000.000_000_1),
        ("1.333", 1.333),
        ("-3.14", -3.14),
        // extra tests
        ("123.456", 123.456),
        ("-987.654", -987.654),
        ("+0.001", 0.001),
        ("42", 42.0),
        ("+3.14", 3.14),
        ("-0.0", -0.0),
        ("0", 0.0),
        ("+0", 0.0),
        ("-1234567890.0987654321", -1_234_567_890.098_765_4), // precision limit, last digit rounded
    ];
    for (src, expected) in success_cases {
        match read_float(src) {
            Some(f) => assert!((f - expected).abs() < 1e-5),
            e => panic!("Expected Some({expected}), got {e:?}"),
        }
    }

    let infinity = (0..=f64::MAX_10_EXP).map(|_| '9').collect::<String>();
    let fail_cases = [
        &infinity,  // infinity
        "nan",      // RFC5545 does not allow non-numeric values
        "infinity", // RFC5545 does not allow non-numeric values
        "+.",       // missing digits
        "-.",       // missing digits
        ".",        // missing digits
        "",         // empty string
        "12a34",    // invalid character
    ];
    for src in fail_cases {
        assert!(read_float(src).is_none(), "Parse {src} should fail");
    }
}

#[test]
fn float_notation_is_checked_exactly() {
    for ok in ["1", "+1", "-1.5", "0.000", "123456789012345678901234567890"] {
        assert!(check_float(ok.as_bytes()), "{ok} should be accepted");
    }
    for bad in ["1.", ".5", "1.2.3", "+", "-", "1e5", " 1", "1 ", "--1", "1,5"] {
        assert!(!check_float(bad.as_bytes()), "{bad} should be refused");
    }
}

#[test]
fn duration_time_may_start_with_minutes_or_seconds() {
    let cases = [
        ("PT15M", DateTime { positive: true, day: 0, hour: 0, minute: 15, second: 0 }),
        ("-PT15M", DateTime { positive: false, day: 0, hour: 0, minute: 15, second: 0 }),
        ("PT30S", DateTime { positive: true, day: 0, hour: 0, minute: 0, second: 30 }),
        ("P1DT15M", DateTime { positive: true, day: 1, hour: 0, minute: 15, second: 0 }),
        ("PT5M20S", DateTime { positive: true, day: 0, hour: 0, minute: 5, second: 20 }),
    ];
    for (src, expected) in cases {
        assert_eq!(property_value_duration(src), Some(expected), "{src}");
    }
    for bad in ["PT15S30M", "PT1H2S3M", "PTM", "PT5"] {
        assert!(property_value_duration(bad).is_none(), "Parse {bad} should fail");
    }
}
