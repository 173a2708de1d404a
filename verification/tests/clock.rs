use chrono::{DateTime, Utc};
use ezsockets::clock::{
    current_time, decode_timestamp, encode_timestamp, is_payload_datable, latency_at, UtcTime,
};

const MIN_MICROS: i64 = -8_334_601_228_800_000_000;
const MAX_MICROS: i64 = 8_210_266_876_799_999_999;

#[test]
fn timestamps_are_big_endian() {
    assert_eq!(encode_timestamp(0x0102_0304_0506_0708), vec![1, 2, 3, 4, 5, 6, 7, 8]);
    assert_eq!(encode_timestamp(-1), vec![255; 8]);
    assert_eq!(encode_timestamp(i64::MIN), vec![128, 0, 0, 0, 0, 0, 0, 0]);
    for number in [0, 1, -1, 255, 256, -256, 1_662_921_288_123_456, i64::MAX, i64::MIN] {
        assert_eq!(encode_timestamp(number), number.to_be_bytes().to_vec());
    }
}

#[test]
fn timestamps_round_trip() {
    for number in [0, 1, -1, 127, 128, -128, 1_662_921_288_123_456, i64::MAX, i64::MIN] {
        assert_eq!(decode_timestamp(&encode_timestamp(number)), Some(number));
    }
}

#[test]
fn payloads_round_trip() {
    for payload in [vec![1, 2, 3, 4, 5, 6, 7, 8], vec![200, 0, 255, 127, 128, 1, 0, 9]] {
        let number = decode_timestamp(&payload).unwrap();
        assert_eq!(encode_timestamp(number), payload);
    }
}

#[test]
fn other_lengths_are_no_timestamps() {
    assert_eq!(decode_timestamp(&vec![]), None);
    assert_eq!(decode_timestamp(&vec![1; 7]), None);
    assert_eq!(decode_timestamp(&vec![1; 9]), None);
}

#[test]
fn dates_have_a_range() {
    for (micros, datable) in [
        (0, true),
        (MIN_MICROS, true),
        (MIN_MICROS - 1, false),
        (MAX_MICROS, true),
        (MAX_MICROS + 1, false),
        (i64::MIN, false),
        (i64::MAX, false),
    ] {
        assert_eq!(is_payload_datable(&encode_timestamp(micros)), datable);
        assert_eq!(DateTime::<Utc>::from_timestamp_micros(micros).is_some(), datable);
    }
    assert!(is_payload_datable(&vec![255; 7]));
}

#[test]
fn timestamp_of_a_time() {
    let time = UtcTime { secs: 1_662_921_288, nanos: 123_456_789 };
    assert_eq!(time.timestamp_micros(), 1_662_921_288_123_456);
    let earlier = UtcTime { secs: -2, nanos: 999_999_999 };
    assert_eq!(earlier.timestamp_micros(), -1_000_001);
    let last = UtcTime { secs: 8_210_266_876_799, nanos: 999_999_999 };
    assert_eq!(last.timestamp_micros(), MAX_MICROS);
}

#[test]
fn latency_is_time_since_the_ping() {
    let now = UtcTime { secs: 100, nanos: 7_999_999 };
    assert_eq!(latency_at(now, &encode_timestamp(99_500_000)), Some(507));
    assert_eq!(latency_at(now, &encode_timestamp(100_007_999)), Some(0));
    assert_eq!(latency_at(now, &encode_timestamp(100_008_998)), Some(0));
    assert_eq!(latency_at(now, &encode_timestamp(100_009_000)), Some(-1));
    assert_eq!(latency_at(now, &vec![1, 2, 3]), None);
    let first = UtcTime { secs: -8_334_601_228_800, nanos: 0 };
    let span = (MAX_MICROS as i128 - MIN_MICROS as i128) / 1000;
    assert_eq!(latency_at(first, &encode_timestamp(MAX_MICROS)), Some(-span as i64));
}

#[test]
fn echoed_ping() {
    let sent = UtcTime { secs: 50, nanos: 123_456_789 };
    let payload = encode_timestamp(sent.timestamp_micros());
    assert!(is_payload_datable(&payload));
    let back = UtcTime { secs: 50, nanos: 193_456_788 };
    assert_eq!(latency_at(back, &payload), Some(70));
}

#[test]
fn the_clock_runs() {
    let before = Utc::now().timestamp_micros();
    let now = current_time().timestamp_micros();
    let after = Utc::now().timestamp_micros();
    assert!(before <= now && now <= after);
}
