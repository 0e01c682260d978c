use std::time::Duration;

use reporting_api::{parse_batch, DecodeError, Registry, DispatchError, Report, NEL};

const BATCH: &str = r#"[{"age":500,"type":"network-error","url":"https://example.com/about/","user_agent":"Mozilla/5.0","body":{"referrer":"https://example.com/","sampling_fraction":0.5,"server_ip":"203.0.113.75","protocol":"h2","method":"POST","status_code":200,"elapsed_time":45,"phase":"application","type":"ok"}}]"#;

#[test]
fn example_batch_reads_as_one_nel_report() {
    let reports = parse_batch(BATCH.as_bytes()).unwrap();
    assert_eq!(reports.len(), 1);
    let bare = reports.into_iter().next().unwrap().unwrap();
    assert_eq!(bare.age, Duration::from_millis(500));
    let report: Report<NEL> = bare.parse().unwrap().unwrap();
    assert_eq!(report.body.sampling_fraction.as_f64(), Some(0.5));
    assert_eq!(report.body.status_code, Some(200));
    assert_eq!(report.body.elapsed_time, Some(Duration::from_millis(45)));
    assert_eq!(report.body.phase, "application");
    assert_eq!(report.body.status, "ok");
}

#[test]
fn example_batch_dispatches_as_nel() {
    let registry = Registry::new().register::<NEL>().unwrap();
    let value: serde_json::Value = serde_json::from_str(BATCH).unwrap();
    let report_json = value.as_array().unwrap()[0].clone();
    let report = registry.decode(report_json).unwrap();
    assert_eq!(report.age, Duration::from_millis(500));
    assert!(report.body.is::<NEL>());
    let body = report.body.downcast::<NEL>().unwrap();
    assert_eq!(body.sampling_fraction.as_f64(), Some(0.5));
    assert_eq!(body.status_code, Some(200));
    assert_eq!(body.elapsed_time, Some(Duration::from_millis(45)));
    assert_eq!(body.phase, "application");
    assert_eq!(body.status, "ok");
}

#[test]
fn unknown_type_is_unmatched_or_unknown() {
    let text = BATCH.replace(r#""type":"network-error""#, r#""type":"unknown""#);
    let bare = parse_batch(text.as_bytes()).unwrap().into_iter().next().unwrap().unwrap();
    assert!(bare.parse::<NEL>().is_none());

    let registry = Registry::new().register::<NEL>().unwrap();
    let value: serde_json::Value = serde_json::from_str(&text).unwrap();
    let report_json = value.as_array().unwrap()[0].clone();
    match registry.decode(report_json) {
        Err(DispatchError::UnknownType(tag)) => assert_eq!(tag, "unknown"),
        other => panic!("expected an unknown type, got {:?}", other),
    }
}

#[test]
fn batch_that_is_not_json_fails_whole() {
    assert_eq!(parse_batch(b"[{").unwrap_err(), DecodeError::Syntax);
}

#[test]
fn batch_that_is_not_an_array_fails_whole() {
    assert_eq!(parse_batch(b"{}").unwrap_err(), DecodeError::NotAnArray);
}

#[test]
fn empty_batch_has_no_reports() {
    assert!(parse_batch(b"[]").unwrap().is_empty());
}

#[test]
fn bad_report_in_batch_fails_alone() {
    let text = br#"[{"age":1,"url":"u","type":"t","body":{}}, 7, {"age":2,"url":"u","user_agent":"a","type":"t","body":{}}]"#;
    let reports = parse_batch(text).unwrap();
    assert_eq!(reports.len(), 3);
    assert_eq!(reports[0], Err(DecodeError::MissingField("user_agent".to_string())));
    assert_eq!(reports[1], Err(DecodeError::NotAnObject));
    assert_eq!(reports[2].as_ref().unwrap().age, Duration::from_millis(2));
}
