use tendermint_proto::google::protobuf::Timestamp;
use tendermint_proto::serializers::{option_timestamp, timestamp};
use tendermint_proto::serializers::timestamp::{Rfc3339, TimestampJsonError, UtcFields};

#[test]
fn timestamp_json_timestamp_precision() {
    let test_timestamps = vec![
        "1970-01-01T00:00:00Z",
        "0001-01-01T00:00:00Z",
        "2020-09-14T16:33:00Z",
        "2020-09-14T16:33:00.1Z",
        "2020-09-14T16:33:00.211914212Z",
        "2020-09-14T16:33:54.21191421Z",
        "2021-01-07T20:25:56.045576Z",
        "2021-01-07T20:25:57.039219Z",
        "2021-01-07T20:26:05.00509Z",
        "2021-01-07T20:26:05.005096Z",
        "2021-01-07T20:26:05.0005096Z",
    ];

    for ts in test_timestamps {
        let json = format!("\"{}\"", ts);
        let rfc = Rfc3339::from(timestamp::deserialize(ts).unwrap());
        let back = Timestamp::from(rfc);
        assert_eq!(json, format!("\"{}\"", timestamp::serialize(&back).unwrap()));
    }
}

#[test]
fn option_timestamp_json_timestamp_precision() {
    let test_timestamps = vec![
        "2020-09-14T16:33:54.21191421Z",
        "2020-09-14T16:33:00Z",
        "2020-09-14T16:33:00.1Z",
        "2020-09-14T16:33:00.211914212Z",
    ];
    for ts in test_timestamps {
        let json = "{\"timestamp\":\"".to_owned() + ts + "\"}";
        let parsed = option_timestamp::deserialize(ts).unwrap();
        let written = option_timestamp::serialize(&parsed).unwrap();
        assert_eq!(json, "{\"timestamp\":\"".to_owned() + &written + "\"}");
    }
}

#[test]
fn timestamp_epoch_and_errors() {
    let t = timestamp::deserialize("1970-01-01T00:00:01.5Z").unwrap();
    assert_eq!(t, Timestamp { seconds: 1, nanos: 500_000_000 });
    assert_eq!(
        timestamp::serialize(&Timestamp { seconds: 0, nanos: -1 }),
        Err(TimestampJsonError::InvalidNanoseconds)
    );
    assert_eq!(
        timestamp::serialize(&Timestamp { seconds: i64::MAX, nanos: 0 }),
        Err(TimestampJsonError::InvalidTime)
    );
    assert!(matches!(timestamp::deserialize("yesterday"), Err(TimestampJsonError::Parse(_))));
    assert_eq!(
        timestamp::deserialize("0000-06-01T00:00:00Z"),
        Err(TimestampJsonError::DateOutOfRange)
    );
    assert_eq!(timestamp::try_deserialize("9999-12-31T23:59:59-01:00"), None);
}

#[test]
fn rfc3339_nanos_text() {
    let t = UtcFields {
        year: 2021,
        month: 1,
        day: 7,
        hour: 20,
        minute: 5,
        second: 9,
        nanosecond: 5_000,
    };
    assert_eq!(timestamp::to_rfc3339_nanos(&t), "2021-01-07T20:05:09.000005Z");
    let t = UtcFields { nanosecond: 0, year: 5, ..t };
    assert_eq!(timestamp::to_rfc3339_nanos(&t), "0005-01-07T20:05:09Z");
    let t = UtcFields { year: -5, ..t };
    assert_eq!(timestamp::to_rfc3339_nanos(&t), "-005-01-07T20:05:09Z");
}

#[test]
fn rfc3999_pads_then_trims_fraction() {
    let t = UtcFields {
        year: 2021,
        month: 1,
        day: 7,
        hour: 20,
        minute: 25,
        second: 56,
        nanosecond: 45_576_000,
    };
    assert_eq!(option_timestamp::to_rfc3999(&t), "2021-01-07T20:25:56.045576Z");
    let t = UtcFields { nanosecond: 5_096_000, second: 5, minute: 26, ..t };
    assert_eq!(option_timestamp::to_rfc3999(&t), "2021-01-07T20:26:05.005096Z");
    let t = UtcFields { nanosecond: 0, ..t };
    assert_eq!(option_timestamp::to_rfc3999(&t), "2021-01-07T20:26:05Z");
    let t = UtcFields { nanosecond: 100_000_000, ..t };
    assert_eq!(option_timestamp::to_rfc3999(&t), "2021-01-07T20:26:05.1Z");
    assert_eq!(
        option_timestamp::serialize(&None),
        Err(option_timestamp::OptionTimestampError::NoTime)
    );
}

#[test]
fn timestamp_normalize() {
    let mut t = Timestamp { seconds: 1, nanos: -1 };
    t.normalize();
    assert_eq!(t, Timestamp { seconds: 0, nanos: 999_999_999 });

    let mut t = Timestamp { seconds: 0, nanos: -1_500_000_000 };
    t.normalize();
    assert_eq!(t, Timestamp { seconds: -2, nanos: 500_000_000 });

    let mut t = Timestamp { seconds: i64::MIN, nanos: -1 };
    t.normalize();
    assert_eq!(t, Timestamp { seconds: i64::MIN, nanos: 0 });

    let mut t = Timestamp { seconds: i64::MAX, nanos: 1_000_000_000 };
    t.normalize();
    assert_eq!(t, Timestamp { seconds: i64::MAX, nanos: 999_999_999 });
}

#[test]
fn timestamp_system_time_parts() {
    assert_eq!(
        Timestamp::from_system_time_parts(true, 10, 5),
        Timestamp { seconds: 10, nanos: 5 }
    );
    assert_eq!(
        Timestamp::from_system_time_parts(false, 10, 0),
        Timestamp { seconds: -10, nanos: 0 }
    );
    assert_eq!(
        Timestamp::from_system_time_parts(false, 10, 250_000_000),
        Timestamp { seconds: -11, nanos: 750_000_000 }
    );
    assert_eq!(Timestamp { seconds: -3, nanos: 5 }.to_system_time_parts(), (false, 3, 5));
    assert_eq!(Timestamp { seconds: 3, nanos: 5 }.to_system_time_parts(), (true, 3, 5));
}

#[test]
fn timestamp_system_time_roundtrip() {
    let cases = [(true, 10u64, 5u32), (false, 10, 0), (false, 10, 250_000_000), (false, 0, 1)];
    for (after, s, n) in cases {
        let (a2, s2, n2) = Timestamp::from_system_time_parts(after, s, n).to_system_time_parts();
        let distance = |a: bool, s: u64, n: u64| -> i128 {
            if a {
                s as i128 * 1_000_000_000 + n as i128
            } else {
                -(s as i128 * 1_000_000_000) + n as i128
            }
        };
        let expected = if after {
            s as i128 * 1_000_000_000 + n as i128
        } else {
            -(s as i128 * 1_000_000_000 + n as i128)
        };
        assert_eq!(distance(a2, s2, n2), expected);
    }
}
