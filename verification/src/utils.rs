//! Utility functions: wall-clock access and little-endian integer decoding.
use vstd::prelude::*;
use std::time::{Duration, SystemTime};
use crate::canopen::le::{le_u16, le_u32, le_u64, u16_from_le, u32_from_le, u64_from_le};

verus! {

/// Opaque declaration of the wall-clock time type of std.
#[verifier::external_type_specification]
#[verifier::external_body]
pub struct ExSystemTime(SystemTime);

/// `SystemTime` is `Copy`: its clone is the same instant.
pub assume_specification[ <SystemTime as Clone>::clone ](t: &SystemTime) -> (r: SystemTime)
    ensures
        r == *t,
;

/// Calls `SystemTime::now`. Nothing is stated of the result: it is the
/// current wall-clock time.
#[verifier::external_body]
pub(crate) fn system_time_now() -> SystemTime {
    SystemTime::now()
}

/// Calls `SystemTime::duration_since(UNIX_EPOCH)`, turning its error into
/// `None`. Nothing is stated of the result: it depends on the clock.
#[verifier::external_body]
fn duration_since_epoch(t: &SystemTime) -> Option<Duration> {
    t.duration_since(std::time::UNIX_EPOCH).ok()
}

/// Calls `SystemTime::elapsed`, turning its error into `None`. Nothing is
/// stated of the result: it depends on the clock.
#[verifier::external_body]
pub(crate) fn system_time_elapsed(t: &SystemTime) -> Option<Duration> {
    t.elapsed().ok()
}

/// Calls `Duration::as_micros`. Nothing is stated of the result, since
/// `Duration` is opaque here.
#[verifier::external_body]
fn duration_as_micros(d: &Duration) -> u128 {
    d.as_micros()
}

/// Calls `Duration::as_nanos`. Nothing is stated of the result, since
/// `Duration` is opaque here.
#[verifier::external_body]
pub(crate) fn duration_as_nanos(d: &Duration) -> u128 {
    d.as_nanos()
}

/// A timestamp in microseconds from a clock reading in microseconds since
/// the Unix epoch: the reading cut to 64 bits, or 0 when there is none (the
/// clock is before the epoch).
pub fn timestamp_from_micros(us: Option<u128>) -> (r: u64)
    ensures
        r == match us {
            Some(u) => u as u64,
            None => 0u64,
        },
{
    match us {
        Some(u) => {
            #[verifier::truncate]
            (u as u64)
        },
        None => 0,
    }
}

/// Current time in microseconds since the Unix epoch (0 when the clock is
/// before the epoch): the clock is read and the reading handed to
/// `timestamp_from_micros`.
pub fn get_timestamp_us() -> u64 {
    let us: Option<u128> = match duration_since_epoch(&system_time_now()) {
        Some(d) => Some(duration_as_micros(&d)),
        None => None,
    };
    timestamp_from_micros(us)
}


/// Little-endian decoding of the first bytes of a byte slice.
pub trait ByteArrayExt {
    /// The first two bytes as a little-endian `u16`, if there are two.
    fn to_u16_le(&self) -> Option<u16>;

    /// The first four bytes as a little-endian `u32`, if there are four.
    fn to_u32_le(&self) -> Option<u32>;

    /// The first eight bytes as a little-endian `u64`, if there are eight.
    fn to_u64_le(&self) -> Option<u64>;
}

impl ByteArrayExt for [u8] {
    fn to_u16_le(&self) -> (r: Option<u16>)
        ensures
            r == if self@.len() >= 2 { Some(le_u16(self@[0], self@[1])) } else { None::<u16> },
    {
        if self.len() >= 2 {
            Some(u16_from_le(self[0], self[1]))
        } else {
            None
        }
    }

    fn to_u32_le(&self) -> (r: Option<u32>)
        ensures
            r == if self@.len() >= 4 {
                Some(le_u32(self@[0], self@[1], self@[2], self@[3]))
            } else {
                None::<u32>
            },
    {
        if self.len() >= 4 {
            Some(u32_from_le(self[0], self[1], self[2], self[3]))
        } else {
            None
        }
    }

    fn to_u64_le(&self) -> (r: Option<u64>)
        ensures
            r == if self@.len() >= 8 { Some(le_u64(self@)) } else { None::<u64> },
    {
        if self.len() >= 8 {
            Some(u64_from_le(self))
        } else {
            None
        }
    }
}

} // verus!
