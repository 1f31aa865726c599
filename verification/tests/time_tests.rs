use mock_clock::Duration;
use mock_clock::Time;
use mock_clock::TimeDecodeError;

#[test]
fn test_add_then_duration_since() {
    let t = Time::from_nanos_since_epoch(123);
    let d = Duration::from_nanos(456);
    assert_eq!(t.add(d).duration_since(t), d);
}

#[test]
fn test_add_exact() {
    let t = Time::from_nanos_since_epoch(1_000);
    let d = Duration::from_secs(2);
    assert_eq!(t.add(d).to_nanos_since_epoch(), 2_000_001_000);
}

#[test]
fn test_nanos_round_trip() {
    let t = Time::from_nanos_since_epoch(987_654_321_000);
    assert_eq!(Time::from_nanos_since_epoch(t.to_nanos_since_epoch()), t);
    let max = Time::from_nanos_since_epoch(u64::MAX);
    assert_eq!(Time::from_nanos_since_epoch(max.to_nanos_since_epoch()), max);
    let zero = Time::from_nanos_since_epoch(0);
    assert_eq!(Time::from_nanos_since_epoch(zero.to_nanos_since_epoch()), zero);
}

#[test]
fn test_duration_since_saturates() {
    let earlier = Time::from_nanos_since_epoch(10);
    let later = Time::from_nanos_since_epoch(1_000);
    assert_eq!(earlier.duration_since(later), Duration::from_nanos(0));
    assert_eq!(later.duration_since(earlier), Duration::from_nanos(990));
    assert_eq!(later.duration_since(later), Duration::from_nanos(0));
}

#[test]
fn test_from_secs_exact() {
    assert_eq!(Duration::from_secs(2).as_nanos(), 2_000_000_000);
    assert_eq!(Duration::from_secs(0).as_nanos(), 0);
}

#[test]
fn test_from_unix_nanos_clamps() {
    assert_eq!(Time::from_unix_nanos(77).to_nanos_since_epoch(), 77);
    assert_eq!(Time::from_unix_nanos(-1).to_nanos_since_epoch(), 0);
    assert_eq!(Time::from_unix_nanos(i64::MIN).to_nanos_since_epoch(), 0);
    assert_eq!(
        Time::from_unix_nanos(i64::MAX).to_nanos_since_epoch(),
        i64::MAX as u64
    );
}

#[test]
fn test_wire_encoding_exact() {
    let t = Time::from_nanos_since_epoch(0x0102030405060708);
    assert_eq!(t.to_bytes(), vec![1u8, 2, 3, 4, 5, 6, 7, 8]);
    let zero = Time::from_nanos_since_epoch(0);
    assert_eq!(zero.to_bytes(), vec![0u8; 8]);
    let max = Time::from_nanos_since_epoch(u64::MAX);
    assert_eq!(max.to_bytes(), vec![0xffu8; 8]);
}

#[test]
fn test_wire_round_trip() {
    for n in [0u64, 1, 999_999_999, u64::MAX, 0x8000000000000000] {
        let t = Time::from_nanos_since_epoch(n);
        let bytes = t.to_bytes();
        assert_eq!(Time::from_bytes(bytes.as_slice()), Ok(t));
    }
}

#[test]
fn test_wire_decode_wrong_length() {
    assert_eq!(
        Time::from_bytes(&[]),
        Err(TimeDecodeError::WrongLength)
    );
    assert_eq!(
        Time::from_bytes(&[1u8, 2, 3, 4, 5, 6, 7]),
        Err(TimeDecodeError::WrongLength)
    );
    assert_eq!(
        Time::from_bytes(&[1u8, 2, 3, 4, 5, 6, 7, 8, 9]),
        Err(TimeDecodeError::WrongLength)
    );
}

#[test]
fn test_time_ordering() {
    let a = Time::from_nanos_since_epoch(1);
    let b = Time::from_nanos_since_epoch(2);
    assert!(a < b);
    assert!(a == a);
    assert_ne!(a, b);
}
