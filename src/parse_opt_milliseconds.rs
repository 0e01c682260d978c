//! Durations that may be absent: an integer of milliseconds, or JSON `null`.
use core::time::Duration;
use vstd::prelude::*;

use crate::json::{fold, layer_of, number_as_u64, number_u64, unfold, Layer};
use crate::parse_milliseconds::{fits_wire, nanos_opt, writes_millis};

verus! {

/// A JSON value that holds a duration that may be absent: `null` for none.
pub open spec fn writes_opt_millis(d: Option<Duration>, v: serde_json::Value) -> bool {
    match d {
        Some(d) => writes_millis(d, v),
        None => layer_of(v) is Null,
    }
}

/// Whether a duration that may be absent can be written.
pub open spec fn fits_wire_opt(d: Option<Duration>) -> bool {
    match d {
        Some(d) => fits_wire(d),
        None => true,
    }
}

/// What a JSON value holds as a duration that may be absent, in nanoseconds:
/// `Some(None)` for `null`, `None` for a value that is neither.
pub open spec fn read_opt_nanos(v: serde_json::Value) -> Option<Option<int>> {
    match layer_of(v) {
        Layer::Null => Some(None),
        Layer::Number(n) => match number_u64(n) {
            Some(ms) => Some(Some(ms * 1_000_000)),
            None => None,
        },
        _ => None,
    }
}

/// Writes an absent duration as `null`, and any other as its whole
/// milliseconds; `None` when those do not fit in a `u64`.
pub fn serialize(value: &Option<Duration>) -> (r: Option<serde_json::Value>)
    ensures
        fits_wire_opt(*value) <==> r is Some,
        r matches Some(v) ==> writes_opt_millis(*value, v),
{
    match value {
        Some(d) => crate::parse_milliseconds::serialize(d),
        None => Some(fold(Layer::Null)),
    }
}

/// Reads a duration that may be absent: `null` gives `Some(None)`, a
/// non-negative integer of milliseconds gives the duration, and anything else
/// gives `None`.
pub fn deserialize(v: serde_json::Value) -> (r: Option<Option<Duration>>)
    ensures
        match r {
            Some(d) => read_opt_nanos(v) == Some(nanos_opt(d)),
            None => read_opt_nanos(v) is None,
        },
{
    match unfold(v) {
        Layer::Null => Some(None),
        Layer::Number(n) => match number_as_u64(&n) {
            Some(ms) => Some(Some(Duration::from_millis(ms))),
            None => None,
        },
        _ => None,
    }
}

/// An absent duration is never written as the same value as a present one,
/// a zero duration among them.
pub proof fn lemma_absent_differs_from_present(d: Duration, none: serde_json::Value, some: serde_json::Value)
    requires
        writes_opt_millis(None, none),
        writes_opt_millis(Some(d), some),
    ensures
        none != some,
{
}

} // verus!
