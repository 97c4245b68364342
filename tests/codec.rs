use serde_nanos::de::{decode_list, decode_option, Deserialize};
use serde_nanos::duration::{Duration, SignedDuration};
use serde_nanos::ser::{serialize_all, Serialize};
use serde_nanos::token::{read_i64, read_u64, DecodeError, EncodeError, Value};

fn tokens(ns: &[i64]) -> Value {
    Value::List(ns.iter().map(|n| Value::Signed(*n)).collect())
}

// Non-negative durations.

#[test]
fn zero_nanosecond_duration_from_str() {
    let actual = Duration::deserialize(&Value::Unsigned(0)).unwrap();
    assert_eq!(actual, Duration::from_millis(0));
}

#[test]
fn one_second_duration_from_str() {
    let actual = Duration::deserialize(&Value::Unsigned(1000000000)).unwrap();
    assert_eq!(actual, Duration::from_secs(1));
}

#[test]
fn default_to_none_from_empty_str() {
    let actual = <Option<Duration>>::deserialize(&Value::Absent).unwrap();
    assert_eq!(actual, None);
}

#[test]
fn zero_nanosecond_optional_from_str() {
    let actual = <Option<Duration>>::deserialize(&Value::Unsigned(0)).unwrap();
    assert_eq!(actual, Some(Duration::from_millis(0)));
}

#[test]
fn one_second_optional_from_str() {
    let actual = <Option<Duration>>::deserialize(&Value::Unsigned(1000000000)).unwrap();
    assert_eq!(actual, Some(Duration::from_secs(1)));
}

#[test]
fn vector_of_durations() {
    let given = vec![Duration::from_nanos(500), Duration::from_secs(15)];
    let written = serialize_all(&given).unwrap();
    assert_eq!(written, vec![500, 15_000_000_000]);
    let actual = <Vec<Duration>>::deserialize(&tokens(&written)).unwrap();
    assert_eq!(given, actual);

    let given: Vec<Duration> = Vec::new();
    let written = serialize_all(&given).unwrap();
    let actual = <Vec<Duration>>::deserialize(&tokens(&written)).unwrap();
    assert_eq!(given, actual);
}

// Signed durations.

#[test]
fn signed_zero_nanosecond_duration_from_str() {
    let actual = SignedDuration::deserialize(&Value::Unsigned(0)).unwrap();
    assert_eq!(actual, SignedDuration::nanoseconds(0));
}

#[test]
fn signed_one_second_duration_from_str() {
    let actual = SignedDuration::deserialize(&Value::Unsigned(1000000000)).unwrap();
    assert_eq!(actual, SignedDuration::new(1, 0).unwrap());
}

#[test]
fn signed_default_to_none_from_empty_str() {
    let actual = <Option<SignedDuration>>::deserialize(&Value::Absent).unwrap();
    assert_eq!(actual, None);
}

#[test]
fn signed_zero_nanosecond_optional_from_str() {
    let actual = <Option<SignedDuration>>::deserialize(&Value::Unsigned(0)).unwrap();
    assert_eq!(actual, Some(SignedDuration::new(0, 0).unwrap()));
}

#[test]
fn signed_one_second_optional_from_str() {
    let actual = <Option<SignedDuration>>::deserialize(&Value::Unsigned(1000000000)).unwrap();
    assert_eq!(actual, Some(SignedDuration::new(1, 0).unwrap()));
}

#[test]
fn signed_vector_of_durations() {
    let given = vec![SignedDuration::nanoseconds(500), SignedDuration::new(15, 0).unwrap()];
    let written = serialize_all(&given).unwrap();
    let actual = <Vec<SignedDuration>>::deserialize(&tokens(&written)).unwrap();
    assert_eq!(given, actual);

    let given: Vec<SignedDuration> = Vec::new();
    let written = serialize_all(&given).unwrap();
    let actual = <Vec<SignedDuration>>::deserialize(&tokens(&written)).unwrap();
    assert_eq!(given, actual);
}

// Encoding.

#[test]
fn zero_encodes_to_zero() {
    assert_eq!(Duration::from_nanos(0).serialize(), Ok(0));
    assert_eq!(SignedDuration::nanoseconds(0).serialize(), Ok(0));
}

#[test]
fn encodes_seconds_and_nanos() {
    assert_eq!(Duration::new(2, 5).serialize(), Ok(2_000_000_005));
    assert_eq!(SignedDuration::new(-2, 5).unwrap().serialize(), Ok(-1_999_999_995));
}

#[test]
fn largest_unsigned_count_encodes() {
    let d = Duration::from_nanos(i64::MAX as u64);
    assert_eq!(d.serialize(), Ok(i64::MAX));
}

#[test]
fn unsigned_count_past_i64_is_out_of_range() {
    let d = Duration::from_nanos(i64::MAX as u64 + 1);
    assert_eq!(d.serialize(), Err(EncodeError::OutOfRange));
    let d = Duration::from_secs(u64::MAX);
    assert_eq!(d.serialize(), Err(EncodeError::OutOfRange));
}

#[test]
fn signed_count_past_i64_is_out_of_range() {
    let d = SignedDuration::new(10_000_000_000, 0).unwrap();
    assert_eq!(d.serialize(), Err(EncodeError::OutOfRange));
    let d = SignedDuration::new(-10_000_000_000, 0).unwrap();
    assert_eq!(d.serialize(), Err(EncodeError::OutOfRange));
}

#[test]
fn sequence_with_unencodable_item_fails() {
    let given = vec![Duration::from_nanos(1), Duration::from_secs(u64::MAX)];
    assert_eq!(serialize_all(&given), Err(EncodeError::OutOfRange));
}

// Decoding.

#[test]
fn one_second_has_one_whole_second() {
    let d = Duration::deserialize(&Value::Unsigned(1_000_000_000)).unwrap();
    assert_eq!(d.as_secs(), 1);
    assert_eq!(d.subsec_nanos(), 0);
    assert_eq!(d.as_nanos(), 1_000_000_000);
}

#[test]
fn negative_nanoseconds_round_down() {
    let d = SignedDuration::nanoseconds(-1);
    assert_eq!(d.secs_floor(), -1);
    assert_eq!(d.subsec_nanos_floor(), 999_999_999);
    assert_eq!(d.as_nanos(), -1);
    let d = SignedDuration::nanoseconds(i64::MIN);
    assert_eq!(d.as_nanos(), i64::MIN as i128);
    assert_eq!(d.serialize(), Ok(i64::MIN));
}

#[test]
fn signed_round_trip() {
    for n in [-1_500_000_000i64, -1, 0, 7, i64::MAX, i64::MIN] {
        let d = SignedDuration::nanoseconds(n);
        let written = d.serialize().unwrap();
        assert_eq!(written, n);
        assert_eq!(SignedDuration::deserialize(&Value::Signed(written)), Ok(d));
    }
}

#[test]
fn unsigned_round_trip() {
    for d in [Duration::new(0, 1), Duration::new(3, 999_999_999), Duration::from_millis(1234)] {
        let written = d.serialize().unwrap();
        assert_eq!(Duration::deserialize(&Value::Signed(written)), Ok(d));
        assert_eq!(Duration::deserialize(&Value::Unsigned(written as u64)), Ok(d));
    }
}

#[test]
fn from_millis_keeps_sub_second_part() {
    let d = Duration::from_millis(1234);
    assert_eq!(d.as_secs(), 1);
    assert_eq!(d.subsec_nanos(), 234_000_000);
}

#[test]
fn non_integer_is_invalid_type() {
    assert_eq!(Duration::deserialize(&Value::Other), Err(DecodeError::InvalidType));
    assert_eq!(SignedDuration::deserialize(&Value::Unit), Err(DecodeError::InvalidType));
    assert_eq!(Duration::deserialize(&Value::List(Vec::new())), Err(DecodeError::InvalidType));
}

#[test]
fn integer_out_of_target_range_is_invalid_value() {
    assert_eq!(Duration::deserialize(&Value::Signed(-1)), Err(DecodeError::InvalidValue));
    assert_eq!(
        SignedDuration::deserialize(&Value::Unsigned(i64::MAX as u64 + 1)),
        Err(DecodeError::InvalidValue)
    );
    assert_eq!(read_u64(&Value::Signed(5)), Ok(5));
    assert_eq!(read_i64(&Value::Unsigned(5)), Ok(5));
}

#[test]
fn null_token_is_absence() {
    assert_eq!(<Option<Duration>>::deserialize(&Value::Unit), Ok(None));
    assert_eq!(decode_option::<SignedDuration>(&Value::Unit), Ok(None));
}

#[test]
fn optional_propagates_inner_failure() {
    assert_eq!(<Option<Duration>>::deserialize(&Value::Other), Err(DecodeError::InvalidType));
    assert_eq!(<Option<Duration>>::deserialize(&Value::Signed(-3)), Err(DecodeError::InvalidValue));
}

#[test]
fn sequence_with_non_integer_fails_whole_decode() {
    let v = Value::List(vec![Value::Unsigned(500), Value::Other, Value::Unsigned(7)]);
    assert_eq!(<Vec<Duration>>::deserialize(&v), Err(DecodeError::InvalidType));
    let v = Value::List(vec![Value::Signed(-1), Value::Other]);
    assert_eq!(decode_list::<Duration>(&v), Err(DecodeError::InvalidValue));
}

#[test]
fn sequence_keeps_order_and_duplicates() {
    let v = Value::List(vec![Value::Unsigned(3), Value::Unsigned(1), Value::Unsigned(3)]);
    let ds = <Vec<Duration>>::deserialize(&v).unwrap();
    assert_eq!(ds, vec![Duration::from_nanos(3), Duration::from_nanos(1), Duration::from_nanos(3)]);
}

#[test]
fn non_list_is_not_a_sequence() {
    assert_eq!(<Vec<Duration>>::deserialize(&Value::Unsigned(1)), Err(DecodeError::InvalidType));
    assert_eq!(<Vec<SignedDuration>>::deserialize(&Value::Absent), Err(DecodeError::InvalidType));
}

#[test]
fn signed_new_rejects_bad_parts() {
    assert_eq!(SignedDuration::new(0, 1_000_000_000), None);
    assert_eq!(SignedDuration::new(i64::MAX, 0), None);
    assert!(SignedDuration::new(i64::MAX / 1000, 807_000_000).is_some());
    assert_eq!(SignedDuration::new(i64::MAX / 1000, 808_000_000), None);
}
