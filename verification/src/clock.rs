//! The wall clock, and the timestamps that pings carry.
//!
//! A ping's payload is the time at which it was made: microseconds since the Unix epoch, as a
//! signed 64-bit number with the most significant byte first. The peer's pong brings the
//! payload back, which gives the latency of the connection.
use chrono::{DateTime, TimeZone, Utc};
use vstd::prelude::*;

verus! {

/// The first second since the Unix epoch that `chrono` can represent: the start of the
/// year -262143.
pub const MIN_UTC_SECS: i64 = -8_334_601_228_800;

/// The last second since the Unix epoch that `chrono` can represent: the end of the
/// year 262142.
pub const MAX_UTC_SECS: i64 = 8_210_266_876_799;

/// A point in time in UTC.
#[derive(Clone, Copy, Debug, PartialEq, Eq, Structural)]
pub struct UtcTime {
    /// Whole seconds since the Unix epoch.
    pub secs: i64,
    /// Nanoseconds since that second.
    pub nanos: u32,
}

impl UtcTime {
    /// The time lies in the range of `chrono` and not within a leap second.
    pub open spec fn valid(self) -> bool {
        &&& MIN_UTC_SECS <= self.secs <= MAX_UTC_SECS
        &&& self.nanos < 1_000_000_000
    }

    /// Nanoseconds since the Unix epoch.
    pub open spec fn epoch_nanos(self) -> int {
        self.secs * 1_000_000_000 + self.nanos
    }

    /// Whole microseconds since the Unix epoch, rounded down.
    pub open spec fn epoch_micros(self) -> int {
        self.epoch_nanos() / 1000
    }

    /// Whole microseconds since the Unix epoch, rounded down.
    pub fn timestamp_micros(self) -> (micros: i64)
        requires
            self.valid(),
        ensures
            micros == self.epoch_micros(),
            micros_in_range(micros as int),
    {
        let subsec: i64 = (self.nanos / 1000) as i64;
        self.secs * 1_000_000 + subsec
    }
}

/// The number of microseconds since the Unix epoch is one that `chrono` has a date for.
pub open spec fn micros_in_range(micros: int) -> bool {
    MIN_UTC_SECS <= micros / 1_000_000 <= MAX_UTC_SECS
}

/// The quotient of two integers rounded towards zero, for a positive divisor.
pub open spec fn truncated_quotient(dividend: int, divisor: int) -> int {
    if dividend >= 0 {
        dividend / divisor
    } else {
        -((-dividend) / divisor)
    }
}

/// `chrono::Utc::now`: the current time. It comes as whole seconds since the Unix epoch, never
/// before the epoch, with the nanoseconds of that second, never within a leap second. Which
/// time it is rests on the machine's clock.
#[verifier::external_body]
fn utc_now() -> (now: UtcTime)
    ensures
        now.valid(),
        now.secs >= 0,
{
    let now = Utc::now();
    UtcTime { secs: now.timestamp(), nanos: now.timestamp_subsec_nanos() }
}

/// The time is one that `chrono::Utc::now` has returned.
pub closed spec fn is_clock_reading(time: UtcTime) -> bool {
    call_ensures(utc_now, (), time)
}

/// The time that the machine's clock shows now.
pub fn current_time() -> (now: UtcTime)
    ensures
        is_clock_reading(now),
        now.valid(),
        now.secs >= 0,
{
    utc_now()
}

/// `chrono::TimeZone::timestamp_micros` for UTC: the time at that many microseconds since the
/// Unix epoch, or nothing where the date is out of range.
#[verifier::external_body]
fn utc_from_micros(micros: i64) -> (time: Option<UtcTime>)
    ensures
        match time {
            Some(time) => {
                &&& micros_in_range(micros as int)
                &&& time.valid()
                &&& time.epoch_nanos() == micros * 1000
            },
            None => !micros_in_range(micros as int),
        },
{
    match Utc.timestamp_micros(micros).single() {
        Some(time) => Some(
            UtcTime { secs: time.timestamp(), nanos: time.timestamp_subsec_nanos() },
        ),
        None => None,
    }
}

/// The difference of two `chrono::DateTime<Utc>` values and `chrono::TimeDelta::num_milliseconds`
/// of it: the whole milliseconds between two times, rounded towards zero.
#[verifier::external_body]
fn utc_millis_since(time: UtcTime, earlier: UtcTime) -> (millis: i64)
    requires
        time.valid(),
        earlier.valid(),
    ensures
        millis == truncated_quotient(time.epoch_nanos() - earlier.epoch_nanos(), 1_000_000),
{
    let time = DateTime::from_timestamp(time.secs, time.nanos).unwrap();
    let earlier = DateTime::from_timestamp(earlier.secs, earlier.nanos).unwrap();
    (time - earlier).num_milliseconds()
}

/// The number that bytes denote, most significant byte first.
pub open spec fn be_unsigned(bytes: Seq<u8>) -> nat
    decreases bytes.len(),
{
    if bytes.len() == 0 {
        0
    } else {
        be_unsigned(bytes.drop_last()) * 256 + bytes.last() as nat
    }
}

/// The signed number that eight bytes denote in two's complement, most significant byte first.
pub open spec fn be_signed(bytes: Seq<u8>) -> int
    recommends
        bytes.len() == 8,
{
    if be_unsigned(bytes) < 0x8000_0000_0000_0000 {
        be_unsigned(bytes) as int
    } else {
        be_unsigned(bytes) - 0x1_0000_0000_0000_0000
    }
}

/// The last bytes of a number, as many as asked for, most significant byte first.
pub open spec fn be_digits(number: nat, len: nat) -> Seq<u8>
    decreases len,
{
    if len == 0 {
        Seq::empty()
    } else {
        be_digits(number / 256, (len - 1) as nat).push((number % 256) as u8)
    }
}

/// The eight bytes of a number in two's complement, most significant byte first.
pub open spec fn be_bytes(number: i64) -> Seq<u8> {
    be_digits(
        if number >= 0 {
            number as nat
        } else {
            (number + 0x1_0000_0000_0000_0000) as nat
        },
        8,
    )
}

/// The payload of a ping that was made at the given time, in microseconds since the Unix epoch.
pub fn encode_timestamp(micros: i64) -> (payload: Vec<u8>)
    ensures
        payload@ == be_bytes(micros),
{
    #[verifier::truncate]
    let unsigned: u64 = micros as u64;
    assert(micros >= 0 ==> unsigned == micros) by (bit_vector)
        requires
            unsigned == micros as u64,
    ;
    assert(micros < 0 ==> unsigned == micros + 0x1_0000_0000_0000_0000) by (bit_vector)
        requires
            unsigned == micros as u64,
    ;
    let q1: u64 = unsigned / 256;
    let q2: u64 = q1 / 256;
    let q3: u64 = q2 / 256;
    let q4: u64 = q3 / 256;
    let q5: u64 = q4 / 256;
    let q6: u64 = q5 / 256;
    let q7: u64 = q6 / 256;
    let payload: Vec<u8> = vec![
        (q7 % 256) as u8,
        (q6 % 256) as u8,
        (q5 % 256) as u8,
        (q4 % 256) as u8,
        (q3 % 256) as u8,
        (q2 % 256) as u8,
        (q1 % 256) as u8,
        (unsigned % 256) as u8,
    ];
    proof {
        reveal_with_fuel(be_digits, 9);
        assert(payload@ =~= be_digits(unsigned as nat, 8));
    }
    payload
}

/// The time that a payload carries, in microseconds since the Unix epoch, if the payload has the
/// length of a timestamp.
pub fn decode_timestamp(payload: &Vec<u8>) -> (micros: Option<i64>)
    ensures
        micros is Some <==> payload@.len() == 8,
        micros matches Some(micros) ==> micros == be_signed(payload@),
{
    if payload.len() != 8 {
        return None;
    }
    let v1: u64 = payload[0] as u64;
    let v2: u64 = v1 * 256 + payload[1] as u64;
    let v3: u64 = v2 * 256 + payload[2] as u64;
    let v4: u64 = v3 * 256 + payload[3] as u64;
    let v5: u64 = v4 * 256 + payload[4] as u64;
    let v6: u64 = v5 * 256 + payload[5] as u64;
    let v7: u64 = v6 * 256 + payload[6] as u64;
    let unsigned: u64 = v7 * 256 + payload[7] as u64;
    proof {
        lemma_one_byte_more(payload@, 0);
        lemma_one_byte_more(payload@, 1);
        lemma_one_byte_more(payload@, 2);
        lemma_one_byte_more(payload@, 3);
        lemma_one_byte_more(payload@, 4);
        lemma_one_byte_more(payload@, 5);
        lemma_one_byte_more(payload@, 6);
        lemma_one_byte_more(payload@, 7);
        assert(payload@.take(8) == payload@);
    }
    #[verifier::truncate]
    let signed: i64 = unsigned as i64;
    assert(unsigned < 0x8000_0000_0000_0000 ==> signed == unsigned) by (bit_vector)
        requires
            signed == unsigned as i64,
    ;
    assert(unsigned >= 0x8000_0000_0000_0000 ==> signed == unsigned - 0x1_0000_0000_0000_0000)
        by (bit_vector)
        requires
            signed == unsigned as i64,
    ;
    Some(signed)
}

/// The payload, where it has the length of a timestamp, names a date in range.
pub open spec fn payload_datable(payload: Seq<u8>) -> bool {
    payload.len() == 8 ==> micros_in_range(be_signed(payload))
}

/// The latency in milliseconds of a payload that comes back at a given time: from the time that
/// the payload carries to then, rounded towards zero. A payload that does not have the length of
/// a timestamp has none.
pub open spec fn latency_spec(now: UtcTime, payload: Seq<u8>) -> Option<int> {
    if payload.len() == 8 {
        Some(truncated_quotient(now.epoch_nanos() - be_signed(payload) * 1000, 1_000_000))
    } else {
        None
    }
}

/// The mathematical value of a latency.
pub open spec fn latency_view(latency: Option<i64>) -> Option<int> {
    match latency {
        Some(millis) => Some(millis as int),
        None => None,
    }
}

/// Whether the latency of a pong with this payload can be told: `false` where the payload has the
/// length of a timestamp and names a date out of range.
pub fn is_payload_datable(payload: &Vec<u8>) -> (datable: bool)
    ensures
        datable == payload_datable(payload@),
{
    match decode_timestamp(payload) {
        Some(micros) => utc_from_micros(micros).is_some(),
        None => true,
    }
}

/// The latency in milliseconds that a pong with this payload shows at the given time. A payload
/// that does not have the length of a timestamp shows none.
pub fn latency_at(now: UtcTime, payload: &Vec<u8>) -> (latency: Option<i64>)
    requires
        now.valid(),
        payload_datable(payload@),
    ensures
        latency_view(latency) == latency_spec(now, payload@),
{
    match decode_timestamp(payload) {
        Some(micros) => match utc_from_micros(micros) {
            Some(sent) => Some(utc_millis_since(now, sent)),
            None => None,
        },
        None => None,
    }
}

/// The powers of 256.
pub open spec fn pow256(exponent: nat) -> nat
    decreases exponent,
{
    if exponent == 0 {
        1
    } else {
        256 * pow256((exponent - 1) as nat)
    }
}

proof fn lemma_one_byte_more(bytes: Seq<u8>, place: int)
    requires
        0 <= place < bytes.len(),
    ensures
        be_unsigned(bytes.take(place + 1)) == be_unsigned(bytes.take(place)) * 256 + bytes[place],
{
    assert(bytes.take(place + 1).drop_last() == bytes.take(place));
}

proof fn lemma_digits_denote(number: nat, len: nat)
    requires
        number < pow256(len),
    ensures
        be_digits(number, len).len() == len,
        be_unsigned(be_digits(number, len)) == number,
    decreases len,
{
    if len > 0 {
        lemma_digits_denote(number / 256, (len - 1) as nat);
        let leading = be_digits(number / 256, (len - 1) as nat);
        assert(be_digits(number, len).drop_last() == leading);
    }
}

proof fn lemma_digits_of_denoted(bytes: Seq<u8>)
    ensures
        be_unsigned(bytes) < pow256(bytes.len()),
        be_digits(be_unsigned(bytes), bytes.len()) == bytes,
    decreases bytes.len(),
{
    if bytes.len() > 0 {
        lemma_digits_of_denoted(bytes.drop_last());
        let number = be_unsigned(bytes);
        assert(number / 256 == be_unsigned(bytes.drop_last()));
        assert(number % 256 == bytes.last());
        assert(be_digits(number, bytes.len()) == bytes.drop_last().push(bytes.last()));
        assert(bytes.drop_last().push(bytes.last()) == bytes);
    }
}

proof fn lemma_pow256_8()
    ensures
        pow256(8) == 0x1_0000_0000_0000_0000,
{
    reveal_with_fuel(pow256, 9);
}

/// A timestamp survives the way into a payload and back.
pub proof fn timestamp_round_trip(micros: i64)
    ensures
        be_bytes(micros).len() == 8,
        be_signed(be_bytes(micros)) == micros,
{
    lemma_pow256_8();
    let unsigned: nat = if micros >= 0 {
        micros as nat
    } else {
        (micros + 0x1_0000_0000_0000_0000) as nat
    };
    lemma_digits_denote(unsigned, 8);
}

/// A payload of eight bytes is the encoding of the timestamp that it carries.
pub proof fn payload_round_trip(payload: Seq<u8>)
    requires
        payload.len() == 8,
    ensures
        i64::MIN <= be_signed(payload) <= i64::MAX,
        be_bytes(be_signed(payload) as i64) == payload,
{
    lemma_pow256_8();
    lemma_digits_of_denoted(payload);
}

/// A pong that brings back the payload of a ping can always be dated, and has a latency: the time
/// since the ping, in milliseconds, but for the rounding of either.
pub proof fn echoed_ping_latency(sent: UtcTime, now: UtcTime)
    requires
        sent.valid(),
    ensures
        payload_datable(be_bytes(sent.epoch_micros() as i64)),
        latency_spec(now, be_bytes(sent.epoch_micros() as i64)) matches Some(latency) && (
        now.epoch_nanos() >= sent.epoch_nanos() ==> {
            let elapsed = now.epoch_nanos() - sent.epoch_nanos();
            elapsed / 1_000_000 <= latency <= (elapsed + 999) / 1_000_000
        }),
{
    timestamp_round_trip(sent.epoch_micros() as i64);
}

/// The number that eight bytes denote in two's complement, written out.
proof fn lemma_eight_bytes(bytes: Seq<u8>)
    requires
        bytes.len() == 8,
    ensures
        be_signed(bytes) == (if bytes[0] < 128 {
            bytes[0] as int
        } else {
            bytes[0] - 256
        }) * 0x100_0000_0000_0000 + bytes[1] * 0x1_0000_0000_0000 + bytes[2] * 0x100_0000_0000
            + bytes[3] * 0x1_0000_0000 + bytes[4] * 0x100_0000 + bytes[5] * 0x1_0000 + bytes[6]
            * 0x100 + bytes[7],
{
    assert(be_unsigned(bytes.take(0)) == 0);
    lemma_one_byte_more(bytes, 0);
    lemma_one_byte_more(bytes, 1);
    lemma_one_byte_more(bytes, 2);
    lemma_one_byte_more(bytes, 3);
    lemma_one_byte_more(bytes, 4);
    lemma_one_byte_more(bytes, 5);
    lemma_one_byte_more(bytes, 6);
    lemma_one_byte_more(bytes, 7);
    assert(bytes.take(8) == bytes);
}

/// The time that the library takes for the present one is a reading of the clock, and lies after
/// the Unix epoch.
pub proof fn present_is_read_from_clock(now: UtcTime)
    requires
        call_ensures(current_time, (), now),
    ensures
        is_clock_reading(now),
        now.secs >= 0,
        now.nanos < 1_000_000_000,
{
}

/// A reading of the clock is what `chrono::Utc::now` has returned.
proof fn readings_are_of_the_clock(time: UtcTime)
    requires
        is_clock_reading(time),
    ensures
        call_ensures(utc_now, (), time),
{
}

/// The timestamp of a time is the microsecond in which the time lies.
pub proof fn timestamp_of_time(time: UtcTime, micros: i64)
    requires
        call_ensures(UtcTime::timestamp_micros, (time,), micros),
    ensures
        micros * 1000 <= time.secs * 1_000_000_000 + time.nanos < (micros + 1) * 1000,
{
}

/// The payload of a ping is the timestamp: eight bytes in two's complement, most significant byte
/// first.
pub proof fn ping_payload(micros: i64, payload: Vec<u8>)
    requires
        call_ensures(encode_timestamp, (micros,), payload),
    ensures
        payload@ == be_bytes(micros),
        payload@.len() == 8,
        micros == (if payload@[0] < 128 {
            payload@[0] as int
        } else {
            payload@[0] - 256
        }) * 0x100_0000_0000_0000 + payload@[1] * 0x1_0000_0000_0000 + payload@[2]
            * 0x100_0000_0000 + payload@[3] * 0x1_0000_0000 + payload@[4] * 0x100_0000 + payload@[5]
            * 0x1_0000 + payload@[6] * 0x100 + payload@[7],
{
    timestamp_round_trip(micros);
    lemma_eight_bytes(payload@);
}

/// A payload of eight bytes carries the timestamp that the bytes denote in two's complement, most
/// significant byte first; any other carries none.
pub proof fn payload_timestamp(payload: &Vec<u8>, micros: Option<i64>)
    requires
        call_ensures(decode_timestamp, (payload,), micros),
    ensures
        micros is Some <==> payload@.len() == 8,
        micros matches Some(micros) ==> {
            &&& micros == be_signed(payload@)
            &&& micros == (if payload@[0] < 128 {
                payload@[0] as int
            } else {
                payload@[0] - 256
            }) * 0x100_0000_0000_0000 + payload@[1] * 0x1_0000_0000_0000 + payload@[2]
                * 0x100_0000_0000 + payload@[3] * 0x1_0000_0000 + payload@[4] * 0x100_0000
                + payload@[5] * 0x1_0000 + payload@[6] * 0x100 + payload@[7]
        },
{
    if payload@.len() == 8 {
        lemma_eight_bytes(payload@);
    }
}

/// What a ping carries is what is read from the pong that brings it back.
pub proof fn pong_brings_timestamp_back(micros: i64, payload: Vec<u8>, read: Option<i64>)
    requires
        call_ensures(encode_timestamp, (micros,), payload),
        call_ensures(decode_timestamp, (&payload,), read),
    ensures
        read == Some(micros),
{
    timestamp_round_trip(micros);
}

/// A payload can be dated unless its eight bytes name a time that is out of range.
pub proof fn dated_payloads(payload: &Vec<u8>, datable: bool)
    requires
        call_ensures(is_payload_datable, (payload,), datable),
    ensures
        payload@.len() != 8 ==> datable,
        payload@.len() == 8 ==> (datable <==> -8_334_601_228_800_000_000 <= be_signed(payload@)
            <= 8_210_266_876_799_999_999),
{
}

/// The latency of a payload of eight bytes is the time since the timestamp that it carries, in
/// milliseconds, rounded towards zero; any other payload has none.
pub proof fn latency_of_payload(now: UtcTime, payload: &Vec<u8>, latency: Option<i64>)
    requires
        call_ensures(latency_at, (now, payload), latency),
    ensures
        latency is Some <==> payload@.len() == 8,
        latency matches Some(millis) ==> {
            let elapsed = now.secs * 1_000_000_000 + now.nanos - be_signed(payload@) * 1000;
            &&& elapsed >= 0 ==> millis * 1_000_000 <= elapsed < (millis + 1) * 1_000_000
            &&& elapsed <= 0 ==> (millis - 1) * 1_000_000 < elapsed <= millis * 1_000_000
        },
{
}

} // verus!
