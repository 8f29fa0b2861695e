use dispatcher::timestamp::{
    elapsed_micros, format_timestamp, get_timestamp, parse_timestamp, timestamp_text,
    try_parse_timestamp, Timestamp, FORMAT_LIMIT_SECS,
};
use dispatcher::TIMESTAMP_LEN;

#[test]
fn format_known_instants() {
    assert_eq!(
        format_timestamp(Timestamp { secs: 0, nanos: 0 }),
        "1970-01-01T00:00:00.000000Z"
    );
    assert_eq!(
        format_timestamp(Timestamp { secs: 1_518_563_312, nanos: 123_000_000 }),
        "2018-02-13T23:08:32.123000Z"
    );
    assert_eq!(
        format_timestamp(Timestamp { secs: 1_518_563_312, nanos: 456_123_789 }),
        "2018-02-13T23:08:32.456123Z"
    );
    assert_eq!(
        format_timestamp(Timestamp { secs: FORMAT_LIMIT_SECS - 1, nanos: 999_999_999 }),
        "9999-12-31T23:59:59.999999Z"
    );
}

#[test]
fn parse_known_texts() {
    assert_eq!(
        parse_timestamp("1970-01-01T00:00:00Z"),
        Timestamp { secs: 0, nanos: 0 }
    );
    assert_eq!(
        parse_timestamp("2018-02-13T23:08:32Z"),
        Timestamp { secs: 1_518_563_312, nanos: 0 }
    );
    assert_eq!(
        parse_timestamp("2020-09-20T03:31:02.361565Z"),
        Timestamp { secs: 1_600_572_662, nanos: 361_565_000 }
    );
}

#[test]
fn try_parse_refuses_bad_texts() {
    assert_eq!(try_parse_timestamp(""), None);
    assert_eq!(try_parse_timestamp("not a timestamp at all....."), None);
    assert_eq!(try_parse_timestamp("1969-12-31T23:59:59Z"), None);
    assert_eq!(try_parse_timestamp("1970-13-01T00:00:00Z"), None);
    assert_eq!(
        try_parse_timestamp("2012-01-01T00:00:00Z"),
        Some(Timestamp { secs: 1_325_376_000, nanos: 0 })
    );
}

#[test]
fn timestamp_text_roundtrip() {
    for (secs, nanos) in [
        (0u64, 0u32),
        (1, 1),
        (1_518_563_312, 123_456_789),
        (2_147_483_647, 999_999_999),
        (253_402_300_799, 5_000),
    ] {
        let t = Timestamp { secs, nanos };
        let text = format_timestamp(t);
        assert_eq!(text.len(), TIMESTAMP_LEN);
        assert_eq!(
            try_parse_timestamp(&text),
            Some(Timestamp { secs, nanos: nanos - nanos % 1000 })
        );
    }
}

#[test]
fn timestamp_text_bounds() {
    assert_eq!(timestamp_text(None), None);
    assert_eq!(
        timestamp_text(Some(Timestamp { secs: FORMAT_LIMIT_SECS, nanos: 0 })),
        None
    );
    assert_eq!(
        timestamp_text(Some(Timestamp { secs: 1, nanos: 0 })),
        Some("1970-01-01T00:00:01.000000Z".to_string())
    );
}

#[test]
fn current_timestamp_has_the_fixed_length() {
    let s = get_timestamp().expect("clock after 1970");
    assert_eq!(s.len(), TIMESTAMP_LEN);
    assert!(try_parse_timestamp(&s).is_some());
    let now = Timestamp::now().expect("clock after 1970");
    assert!(now.secs > 1_600_000_000);
}

#[test]
fn elapsed_micros_exact() {
    let a = Timestamp { secs: 10, nanos: 500_000_000 };
    let b = Timestamp { secs: 12, nanos: 250_001_999 };
    assert_eq!(elapsed_micros(a, b), Some(1_750_001));
    assert_eq!(elapsed_micros(a, a), Some(0));
    assert_eq!(elapsed_micros(b, a), None);
    let far = Timestamp { secs: u64::MAX, nanos: 999_999_999 };
    let zero = Timestamp { secs: 0, nanos: 0 };
    assert_eq!(
        elapsed_micros(zero, far),
        Some((u64::MAX as u128) * 1_000_000 + 999_999)
    );
}

#[test]
fn text_ignores_sub_microsecond_digits() {
    assert_eq!(
        format_timestamp(Timestamp { secs: 1_600_572_662, nanos: 361_565_999 }),
        format_timestamp(Timestamp { secs: 1_600_572_662, nanos: 361_565_000 })
    );
}

#[test]
fn format_after_parse_gives_the_same_text() {
    for (secs, nanos) in [(0u64, 0u32), (1_600_572_662, 361_565_999), (253_402_300_799, 999_999_999)] {
        let text = format_timestamp(Timestamp { secs, nanos });
        let parsed = try_parse_timestamp(&text).expect("own text parses");
        assert_eq!(format_timestamp(parsed), text);
    }
    let s = get_timestamp().expect("clock after 1970");
    assert_eq!(format_timestamp(parse_timestamp(&s)), s);
}

fn assert_micros_layout(s: &str) {
    let b = s.as_bytes();
    assert_eq!(b.len(), TIMESTAMP_LEN);
    for (i, c) in b.iter().enumerate() {
        match i {
            4 | 7 => assert_eq!(*c, b'-'),
            10 => assert_eq!(*c, b'T'),
            13 | 16 => assert_eq!(*c, b':'),
            19 => assert_eq!(*c, b'.'),
            26 => assert_eq!(*c, b'Z'),
            _ => assert!(c.is_ascii_digit()),
        }
    }
}

#[test]
fn timestamp_text_layout() {
    assert_micros_layout(&get_timestamp().expect("clock after 1970"));
    assert_micros_layout(&format_timestamp(Timestamp { secs: 0, nanos: 0 }));
    assert_micros_layout(&format_timestamp(Timestamp { secs: FORMAT_LIMIT_SECS - 1, nanos: 1 }));
}
