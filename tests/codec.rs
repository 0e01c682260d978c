use std::time::Duration;

use reporting_api::parse_milliseconds;
use reporting_api::parse_opt_milliseconds;

fn json(text: &str) -> serde_json::Value {
    serde_json::from_str(text).unwrap()
}

#[test]
fn millis_are_written_as_an_integer() {
    assert_eq!(parse_milliseconds::serialize(&Duration::from_millis(45)), Some(json("45")));
}

#[test]
fn millis_are_truncated_not_rounded() {
    assert_eq!(parse_milliseconds::serialize(&Duration::from_micros(45_999)), Some(json("45")));
    assert_eq!(parse_milliseconds::serialize(&Duration::from_nanos(999_999)), Some(json("0")));
}

#[test]
fn whole_millis_round_trip() {
    for ms in [0u64, 1, 45, 500, u64::MAX] {
        let d = Duration::from_millis(ms);
        let written = parse_milliseconds::serialize(&d).unwrap();
        assert_eq!(parse_milliseconds::deserialize(written), Some(d));
    }
}

#[test]
fn millis_that_do_not_fit_are_not_written() {
    assert_eq!(parse_milliseconds::serialize(&Duration::MAX), None);
    assert_eq!(parse_milliseconds::to_millis(&Duration::MAX), None);
    assert_eq!(parse_milliseconds::to_millis(&Duration::from_millis(u64::MAX)), Some(u64::MAX));
}

#[test]
fn negative_millis_are_rejected() {
    assert_eq!(parse_milliseconds::deserialize(json("-5")), None);
}

#[test]
fn non_integer_millis_are_rejected() {
    assert_eq!(parse_milliseconds::deserialize(json("1.5")), None);
    assert_eq!(parse_milliseconds::deserialize(json("\"45\"")), None);
    assert_eq!(parse_milliseconds::deserialize(json("null")), None);
}

#[test]
fn whole_millis_are_recognised() {
    assert!(parse_milliseconds::is_whole_millis(&Duration::from_millis(3)));
    assert!(!parse_milliseconds::is_whole_millis(&Duration::from_micros(3_001)));
}

#[test]
fn absent_duration_is_null_not_zero() {
    let none = parse_opt_milliseconds::serialize(&None).unwrap();
    let zero = parse_opt_milliseconds::serialize(&Some(Duration::ZERO)).unwrap();
    assert_eq!(none, serde_json::Value::Null);
    assert_eq!(zero, json("0"));
    assert_ne!(none, zero);
}

#[test]
fn optional_duration_reads_null_and_integers() {
    assert_eq!(parse_opt_milliseconds::deserialize(json("null")), Some(None));
    assert_eq!(parse_opt_milliseconds::deserialize(json("0")), Some(Some(Duration::ZERO)));
    assert_eq!(parse_opt_milliseconds::deserialize(json("45")), Some(Some(Duration::from_millis(45))));
    assert_eq!(parse_opt_milliseconds::deserialize(json("-45")), None);
    assert_eq!(parse_opt_milliseconds::deserialize(json("[]")), None);
}

#[test]
fn optional_duration_that_does_not_fit_is_not_written() {
    assert_eq!(parse_opt_milliseconds::serialize(&Some(Duration::MAX)), None);
}
