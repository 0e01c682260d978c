//! Reading the fields of a JSON object one by one, each moved out of the map.
use core::time::Duration;
use vstd::prelude::*;

use crate::error::{DecodeError, Fault};
use crate::json::{layer_of, map_entries, map_remove, number_as_u64, number_u64, unfold, JsonMap, Layer};
use crate::parse_milliseconds::{nanos_of, nanos_opt, read_nanos};
use crate::parse_opt_milliseconds::read_opt_nanos;

verus! {

/// The entries of a JSON object.
pub type Entries = Map<Seq<char>, serde_json::Value>;

/// The value under a required key.
pub open spec fn field_value(e: Entries, k: Seq<char>) -> Result<serde_json::Value, Fault> {
    if e.contains_key(k) {
        Ok(e[k])
    } else {
        Err(Fault::MissingField(k))
    }
}

/// The string under a required key.
pub open spec fn field_str(e: Entries, k: Seq<char>) -> Result<Seq<char>, Fault> {
    match field_value(e, k) {
        Ok(v) => match layer_of(v) {
            Layer::Str(s) => Ok(s@),
            _ => Err(Fault::InvalidField(k)),
        },
        Err(f) => Err(f),
    }
}

/// The number under a required key.
pub open spec fn field_number(e: Entries, k: Seq<char>) -> Result<serde_json::Number, Fault> {
    match field_value(e, k) {
        Ok(v) => match layer_of(v) {
            Layer::Number(n) => Ok(n),
            _ => Err(Fault::InvalidField(k)),
        },
        Err(f) => Err(f),
    }
}

/// The duration, in nanoseconds, under a required key that holds milliseconds.
pub open spec fn field_nanos(e: Entries, k: Seq<char>) -> Result<int, Fault> {
    match field_value(e, k) {
        Ok(v) => match read_nanos(v) {
            Some(n) => Ok(n),
            None => Err(Fault::InvalidField(k)),
        },
        Err(f) => Err(f),
    }
}

/// The duration, in nanoseconds, under a required key that holds milliseconds
/// or `null`.
pub open spec fn field_opt_nanos(e: Entries, k: Seq<char>) -> Result<Option<int>, Fault> {
    match field_value(e, k) {
        Ok(v) => match read_opt_nanos(v) {
            Some(n) => Ok(n),
            None => Err(Fault::InvalidField(k)),
        },
        Err(f) => Err(f),
    }
}

/// The 16-bit integer under an optional key: absent or `null` give `None`.
pub open spec fn field_opt_u16(e: Entries, k: Seq<char>) -> Result<Option<u16>, Fault> {
    if !e.contains_key(k) {
        Ok(None)
    } else {
        match layer_of(e[k]) {
            Layer::Null => Ok(None),
            Layer::Number(n) => match number_u64(n) {
                Some(u) => if u <= u16::MAX {
                    Ok(Some(u as u16))
                } else {
                    Err(Fault::InvalidField(k))
                },
                None => Err(Fault::InvalidField(k)),
            },
            _ => Err(Fault::InvalidField(k)),
        }
    }
}

/// The error for a required key that is absent.
pub fn missing(k: &str) -> (r: DecodeError)
    ensures
        r@ == Fault::MissingField(k@),
{
    DecodeError::MissingField(k.to_owned())
}

/// The error for a key whose value is of the wrong kind.
pub fn invalid(k: &str) -> (r: DecodeError)
    ensures
        r@ == Fault::InvalidField(k@),
{
    DecodeError::InvalidField(k.to_owned())
}

/// Moves the value under a required key out of an object.
pub fn take_value(m: &mut JsonMap, k: &str) -> (r: Result<serde_json::Value, DecodeError>)
    ensures
        map_entries(*final(m)) == map_entries(*old(m)).remove(k@),
        match r {
            Ok(v) => field_value(map_entries(*old(m)), k@) == Ok::<serde_json::Value, Fault>(v),
            Err(e) => field_value(map_entries(*old(m)), k@) == Err::<serde_json::Value, Fault>(e@),
        },
{
    match map_remove(m, k) {
        Some(v) => Ok(v),
        None => Err(missing(k)),
    }
}

/// Moves the string under a required key out of an object.
pub fn take_str(m: &mut JsonMap, k: &str) -> (r: Result<String, DecodeError>)
    ensures
        map_entries(*final(m)) == map_entries(*old(m)).remove(k@),
        match r {
            Ok(s) => field_str(map_entries(*old(m)), k@) == Ok::<Seq<char>, Fault>(s@),
            Err(e) => field_str(map_entries(*old(m)), k@) == Err::<Seq<char>, Fault>(e@),
        },
{
    match take_value(m, k) {
        Ok(v) => match unfold(v) {
            Layer::Str(s) => Ok(s),
            _ => Err(invalid(k)),
        },
        Err(e) => Err(e),
    }
}

/// Moves the number under a required key out of an object.
pub fn take_number(m: &mut JsonMap, k: &str) -> (r: Result<serde_json::Number, DecodeError>)
    ensures
        map_entries(*final(m)) == map_entries(*old(m)).remove(k@),
        match r {
            Ok(n) => field_number(map_entries(*old(m)), k@) == Ok::<serde_json::Number, Fault>(n),
            Err(e) => field_number(map_entries(*old(m)), k@) == Err::<serde_json::Number, Fault>(e@),
        },
{
    match take_value(m, k) {
        Ok(v) => match unfold(v) {
            Layer::Number(n) => Ok(n),
            _ => Err(invalid(k)),
        },
        Err(e) => Err(e),
    }
}

/// Moves the duration under a required key, written in milliseconds, out of
/// an object.
pub fn take_duration(m: &mut JsonMap, k: &str) -> (r: Result<Duration, DecodeError>)
    ensures
        map_entries(*final(m)) == map_entries(*old(m)).remove(k@),
        match r {
            Ok(d) => field_nanos(map_entries(*old(m)), k@) == Ok::<int, Fault>(nanos_of(d) as int),
            Err(e) => field_nanos(map_entries(*old(m)), k@) == Err::<int, Fault>(e@),
        },
{
    match take_value(m, k) {
        Ok(v) => match crate::parse_milliseconds::deserialize(v) {
            Some(d) => Ok(d),
            None => Err(invalid(k)),
        },
        Err(e) => Err(e),
    }
}

/// Moves the duration under a required key, written in milliseconds or as
/// `null`, out of an object.
pub fn take_opt_duration(m: &mut JsonMap, k: &str) -> (r: Result<Option<Duration>, DecodeError>)
    ensures
        map_entries(*final(m)) == map_entries(*old(m)).remove(k@),
        match r {
            Ok(d) => field_opt_nanos(map_entries(*old(m)), k@) == Ok::<Option<int>, Fault>(nanos_opt(d)),
            Err(e) => field_opt_nanos(map_entries(*old(m)), k@) == Err::<Option<int>, Fault>(e@),
        },
{
    match take_value(m, k) {
        Ok(v) => match crate::parse_opt_milliseconds::deserialize(v) {
            Some(d) => Ok(d),
            None => Err(invalid(k)),
        },
        Err(e) => Err(e),
    }
}

/// Moves the 16-bit integer under an optional key out of an object.
pub fn take_opt_u16(m: &mut JsonMap, k: &str) -> (r: Result<Option<u16>, DecodeError>)
    ensures
        map_entries(*final(m)) == map_entries(*old(m)).remove(k@),
        match r {
            Ok(u) => field_opt_u16(map_entries(*old(m)), k@) == Ok::<Option<u16>, Fault>(u),
            Err(e) => field_opt_u16(map_entries(*old(m)), k@) == Err::<Option<u16>, Fault>(e@),
        },
{
    match map_remove(m, k) {
        None => Ok(None),
        Some(v) => match unfold(v) {
            Layer::Null => Ok(None),
            Layer::Number(n) => match number_as_u64(&n) {
                Some(u) => if u <= u16::MAX as u64 {
                    Ok(Some(u as u16))
                } else {
                    Err(invalid(k))
                },
                None => Err(invalid(k)),
            },
            _ => Err(invalid(k)),
        },
    }
}

} // verus!
