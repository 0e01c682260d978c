//! Durations written as a whole number of milliseconds.
use core::time::Duration;
use vstd::prelude::*;

use crate::json::{fold, layer_of, number_as_u64, number_from_u64, number_u64, unfold, Layer};

verus! {

/// The length of a duration in nanoseconds, as `Duration::as_nanos` gives it.
pub uninterp spec fn nanos_of(d: Duration) -> u128;

pub assume_specification[ Duration::as_nanos ](d: &Duration) -> (r: u128)
    ensures
        r == nanos_of(*d),
;

/// `Duration::as_millis` counts the whole milliseconds, dropping the rest.
pub assume_specification[ Duration::as_millis ](d: &Duration) -> (r: u128)
    ensures
        r == nanos_of(*d) / 1_000_000,
;

pub assume_specification[ Duration::from_millis ](millis: u64) -> (r: Duration)
    ensures
        nanos_of(r) == millis * 1_000_000,
;

pub const NANOS_PER_MILLI: u128 = 1_000_000;

/// The whole milliseconds in a duration; what is left below one is dropped.
pub open spec fn millis_of(d: Duration) -> int {
    nanos_of(d) as int / 1_000_000
}

/// A duration that the wire format can hold: its milliseconds fit in a `u64`.
pub open spec fn fits_wire(d: Duration) -> bool {
    millis_of(d) <= u64::MAX
}

/// A duration with nothing below the millisecond.
pub open spec fn is_whole(d: Duration) -> bool {
    nanos_of(d) % 1_000_000 == 0
}

/// The non-negative integer that a JSON value holds, if it holds one.
pub open spec fn value_u64(v: serde_json::Value) -> Option<u64> {
    match layer_of(v) {
        Layer::Number(n) => number_u64(n),
        _ => None,
    }
}

/// A JSON value that holds the whole milliseconds of a duration.
pub open spec fn writes_millis(d: Duration, v: serde_json::Value) -> bool {
    value_u64(v) == Some(millis_of(d) as u64)
}

/// The length in nanoseconds of the duration that a JSON value holds as an
/// integer of milliseconds, if it holds one.
pub open spec fn read_nanos(v: serde_json::Value) -> Option<int> {
    match value_u64(v) {
        Some(ms) => Some(ms * 1_000_000),
        None => None,
    }
}

/// The length in nanoseconds of a duration that may be absent.
pub open spec fn nanos_opt(d: Option<Duration>) -> Option<int> {
    match d {
        Some(d) => Some(nanos_of(d) as int),
        None => None,
    }
}

/// Whether a duration is a whole number of milliseconds, so that writing it
/// loses nothing.
pub fn is_whole_millis(d: &Duration) -> (r: bool)
    ensures
        r == is_whole(*d),
{
    d.as_nanos() % NANOS_PER_MILLI == 0
}

/// The milliseconds of a duration, truncated, when they fit in a `u64`.
pub fn to_millis(d: &Duration) -> (r: Option<u64>)
    ensures
        fits_wire(*d) ==> r == Some(millis_of(*d) as u64),
        !fits_wire(*d) ==> r is None,
{
    let ms = d.as_millis();
    if ms <= u64::MAX as u128 {
        Some(ms as u64)
    } else {
        None
    }
}

/// Reads a non-negative integer out of a JSON value.
pub fn read_u64(v: serde_json::Value) -> (r: Option<u64>)
    ensures
        r == value_u64(v),
{
    match unfold(v) {
        Layer::Number(n) => number_as_u64(&n),
        _ => None,
    }
}

/// Writes an integer as a JSON number.
pub fn write_u64(u: u64) -> (r: serde_json::Value)
    ensures
        value_u64(r) == Some(u),
        layer_of(r) is Number,
{
    fold(Layer::Number(number_from_u64(u)))
}

/// Writes a duration as its whole milliseconds, truncated; `None` when they do
/// not fit in a `u64`.
pub fn serialize(value: &Duration) -> (r: Option<serde_json::Value>)
    ensures
        fits_wire(*value) <==> r is Some,
        r matches Some(v) ==> writes_millis(*value, v),
{
    match to_millis(value) {
        Some(ms) => Some(write_u64(ms)),
        None => None,
    }
}

/// Reads a duration from a JSON integer of milliseconds; `None` for anything
/// but a non-negative integer.
pub fn deserialize(v: serde_json::Value) -> (r: Option<Duration>)
    ensures
        nanos_opt(r) == read_nanos(v),
{
    match read_u64(v) {
        Some(ms) => Some(Duration::from_millis(ms)),
        None => None,
    }
}

/// Reading back what was written for a duration gives the same length of
/// time, when the duration is a whole number of milliseconds.
pub proof fn lemma_whole_millis_round_trip(d: Duration, v: serde_json::Value)
    requires
        is_whole(d),
        fits_wire(d),
        writes_millis(d, v),
    ensures
        read_nanos(v) == Some(nanos_of(d) as int),
{
    let n = nanos_of(d) as int;
    assert(n == (n / 1_000_000) * 1_000_000) by {
        vstd::arithmetic::div_mod::lemma_fundamental_div_mod(n, 1_000_000);
    }
}

/// A JSON value that is not a non-negative integer, a negative integer among
/// them, is no duration.
pub proof fn lemma_rejects_non_millis(v: serde_json::Value)
    requires
        value_u64(v) is None,
    ensures
        read_nanos(v) is None,
{
}

} // verus!
