use tendermint_proto::google::protobuf::duration::json_would_negate_min;
use tendermint_proto::google::protobuf::duration::DurationJsonError;
use tendermint_proto::google::protobuf::Duration;

fn verify(duration: &Duration, expected: &str) {
    let text = format!("\"{}\"", duration.to_json_string().unwrap());
    assert_eq!(text.as_str(), expected);
    let inner = &expected[1..expected.len() - 1];
    assert_eq!(&Duration::from_json_str(inner).unwrap(), duration);
}

#[test]
fn test_duration() {
    let duration = Duration { seconds: 0, nanos: 0 };
    verify(&duration, "\"0s\"");

    let duration = Duration { seconds: 0, nanos: 123 };
    verify(&duration, "\"0.000000123s\"");

    let duration = Duration { seconds: 0, nanos: 123456 };
    verify(&duration, "\"0.000123456s\"");

    let duration = Duration { seconds: 0, nanos: 123456789 };
    verify(&duration, "\"0.123456789s\"");

    let duration = Duration { seconds: 0, nanos: -67088 };
    verify(&duration, "\"-0.000067088s\"");

    let duration = Duration { seconds: 121, nanos: 3454 };
    verify(&duration, "\"121.000003454s\"");

    let duration = Duration { seconds: -90, nanos: -2456301 };
    verify(&duration, "\"-90.002456301s\"");

    let duration = Duration { seconds: -90, nanos: 234 };
    duration.to_json_string().unwrap_err();

    let duration = Duration { seconds: 90, nanos: -234 };
    duration.to_json_string().unwrap_err();

    Duration::from_json_str("90.1234567891s").unwrap_err();
}

#[test]
fn duration_json_errors() {
    assert_eq!(Duration::from_json_str("5"), Err(DurationJsonError::MissingSuffix));
    assert_eq!(Duration::from_json_str(""), Err(DurationJsonError::MissingSuffix));
    assert_eq!(
        Duration::from_json_str("1.1234567890s"),
        Err(DurationJsonError::TooManyDecimalPlaces)
    );
    assert!(matches!(
        Duration::from_json_str("abcs"),
        Err(DurationJsonError::InvalidInteger(_))
    ));
    assert!(matches!(
        Duration::from_json_str("1.s"),
        Err(DurationJsonError::InvalidInteger(_))
    ));
    assert_eq!(
        Duration { seconds: 1, nanos: -1 }.to_json_string(),
        Err(DurationJsonError::InconsistentSigns)
    );
    assert_eq!(DurationJsonError::MissingSuffix.message(), "missing 's' suffix");
}

#[test]
fn duration_json_fraction_widths() {
    assert_eq!(Duration { seconds: 1, nanos: 500_000_000 }.to_json_string().unwrap(), "1.500s");
    assert_eq!(Duration { seconds: 1, nanos: 500_100_000 }.to_json_string().unwrap(), "1.500100s");
    assert_eq!(Duration::from_json_str("1.5s").unwrap(), Duration { seconds: 1, nanos: 500_000_000 });
    assert_eq!(Duration::from_json_str("-1.5s").unwrap(), Duration { seconds: -1, nanos: -500_000_000 });
    assert_eq!(Duration::from_json_str("+7s").unwrap(), Duration { seconds: 7, nanos: 0 });
}

#[test]
fn duration_normalize() {
    let mut d = Duration { seconds: 1, nanos: -1 };
    d.normalize();
    assert_eq!(d, Duration { seconds: 0, nanos: 999_999_999 });

    let mut d = Duration { seconds: -1, nanos: 1 };
    d.normalize();
    assert_eq!(d, Duration { seconds: 0, nanos: -999_999_999 });

    let mut d = Duration { seconds: 0, nanos: 2_500_000_000u32 as i32 };
    d.normalize();
    assert_eq!(d, Duration { seconds: -1, nanos: -794_967_296 });

    let mut d = Duration { seconds: 3, nanos: 1_500_000_000 };
    d.normalize();
    assert_eq!(d, Duration { seconds: 4, nanos: 500_000_000 });

    let mut d = Duration { seconds: i64::MAX, nanos: 1_000_000_000 };
    d.normalize();
    assert_eq!(d, Duration { seconds: i64::MAX, nanos: 999_999_999 });

    let mut d = Duration { seconds: i64::MIN, nanos: -1_000_000_000 };
    d.normalize();
    assert_eq!(d, Duration { seconds: i64::MIN, nanos: -999_999_999 });

    let mut d = Duration { seconds: 5, nanos: 7 };
    let before = d;
    d.normalize();
    assert_eq!(d, before);
}

#[test]
fn duration_std_parts() {
    assert_eq!(Duration::from_std_parts(5, 7), Duration { seconds: 5, nanos: 7 });
    assert_eq!(
        Duration::from_std_parts(u64::MAX, 0),
        Duration { seconds: i64::MAX, nanos: 0 }
    );
    assert_eq!(Duration { seconds: 3, nanos: 4 }.to_std_parts(), Ok((3, 4)));
    assert_eq!(Duration { seconds: -3, nanos: -4 }.to_std_parts(), Err((3, 4)));
    assert_eq!(Duration { seconds: 1, nanos: -1 }.to_std_parts(), Ok((0, 999_999_999)));
    assert_eq!(Duration { seconds: 0, nanos: -5 }.to_std_parts(), Err((0, 5)));
    assert_eq!(Duration { seconds: -90, nanos: -2_456_301 }.to_std_parts(), Err((90, 2_456_301)));
}

#[test]
fn duration_json_negating_the_smallest_seconds() {
    assert!(json_would_negate_min("--9223372036854775808s"));
    assert!(!json_would_negate_min("-9223372036854775808s"));
    assert!(!json_would_negate_min("-9223372036854775807s"));
    assert!(!json_would_negate_min("x"));
}

#[test]
fn duration_std_roundtrip() {
    for (s, n) in [(0u64, 0u32), (1, 999_999_999), (i64::MAX as u64, 123), (42, 0)] {
        assert_eq!(Duration::from_std_parts(s, n).to_std_parts(), Ok((s, n)));
    }
}
