use std::time::Duration;

use reporting_api::{BareReport, DecodeError, Report, ReportType, NEL};

fn json(text: &str) -> serde_json::Value {
    serde_json::from_str(text).unwrap()
}

fn empty_object() -> serde_json::Value {
    serde_json::Value::Object(serde_json::Map::new())
}

const NEL_REPORT: &str = r#"{
    "age": 500,
    "type": "network-error",
    "url": "https://example.com/about/",
    "user_agent": "Mozilla/5.0",
    "body": {
        "referrer": "https://example.com/",
        "sampling_fraction": 0.5,
        "server_ip": "203.0.113.75",
        "protocol": "h2",
        "method": "POST",
        "status_code": 200,
        "elapsed_time": 45,
        "phase":"application",
        "type": "ok"
    }
}"#;

fn expected_nel() -> NEL {
    NEL {
        referrer: "https://example.com/".to_string(),
        sampling_fraction: serde_json::Number::from_f64(0.5).unwrap(),
        server_ip: "203.0.113.75".to_string(),
        protocol: "h2".to_string(),
        method: "POST".to_string(),
        status_code: Some(200),
        elapsed_time: Some(Duration::from_millis(45)),
        phase: "application".to_string(),
        status: "ok".to_string(),
    }
}

#[test]
fn can_parse_unknown_report_type() {
    let report_json = json(
        r#"{
            "age": 500,
            "url": "https://example.com/about/",
            "user_agent": "Mozilla/5.0",
            "type": "unknown",
            "body": {}
        }"#,
    );
    let report = BareReport::from_json(report_json).expect("Should be able to parse JSON report");
    assert_eq!(
        report,
        BareReport {
            age: Duration::from_millis(500),
            url: "https://example.com/about/".to_string(),
            user_agent: "Mozilla/5.0".to_string(),
            report_type: "unknown".to_string(),
            body: empty_object(),
        }
    );
}

#[test]
fn cannot_parse_missing_report_type() {
    let report_json = json(
        r#"{
            "age": 500,
            "url": "https://example.com/about/",
            "user_agent": "Mozilla/5.0",
            "body": {}
        }"#,
    );
    assert!(BareReport::from_json(report_json).is_err());
}

#[test]
fn cannot_parse_missing_body() {
    let report_json = json(
        r#"{
            "age": 500,
            "url": "https://example.com/about/",
            "user_agent": "Mozilla/5.0",
            "type": "unknown"
        }"#,
    );
    assert!(BareReport::from_json(report_json).is_err());
}

#[test]
fn can_parse_nel_report() {
    let report_json = json(NEL_REPORT);
    let bare_report = BareReport::from_json(report_json).expect("Should be able to parse JSON report");
    let report: Report<NEL> = bare_report
        .parse()
        .expect("Report should be a NEL report")
        .expect("Should be able to parse NEL report body");
    assert_eq!(
        report,
        Report {
            age: Duration::from_millis(500),
            url: "https://example.com/about/".to_string(),
            user_agent: "Mozilla/5.0".to_string(),
            body: expected_nel(),
        }
    );
}

#[test]
fn missing_envelope_fields_are_named() {
    let cases = [
        ("age", r#"{"url":"u","user_agent":"a","type":"t","body":{}}"#),
        ("url", r#"{"age":1,"user_agent":"a","type":"t","body":{}}"#),
        ("user_agent", r#"{"age":1,"url":"u","type":"t","body":{}}"#),
        ("type", r#"{"age":1,"url":"u","user_agent":"a","body":{}}"#),
        ("body", r#"{"age":1,"url":"u","user_agent":"a","type":"t"}"#),
    ];
    for (field, text) in cases {
        assert_eq!(
            BareReport::from_json(json(text)),
            Err(DecodeError::MissingField(field.to_string()))
        );
    }
}

#[test]
fn ill_typed_envelope_fields_are_named() {
    assert_eq!(
        BareReport::from_json(json(r#"{"age":"500","url":"u","user_agent":"a","type":"t","body":{}}"#)),
        Err(DecodeError::InvalidField("age".to_string()))
    );
    assert_eq!(
        BareReport::from_json(json(r#"{"age":-1,"url":"u","user_agent":"a","type":"t","body":{}}"#)),
        Err(DecodeError::InvalidField("age".to_string()))
    );
    assert_eq!(
        BareReport::from_json(json(r#"{"age":1,"url":7,"user_agent":"a","type":"t","body":{}}"#)),
        Err(DecodeError::InvalidField("url".to_string()))
    );
}

#[test]
fn a_report_must_be_an_object() {
    assert_eq!(BareReport::from_json(json("[1, 2]")), Err(DecodeError::NotAnObject));
}

#[test]
fn extra_envelope_keys_are_ignored() {
    let report = BareReport::from_json(json(
        r#"{"age":0,"url":"u","user_agent":"a","type":"t","body":null,"extra":true}"#,
    ))
    .unwrap();
    assert_eq!(report.age, Duration::ZERO);
    assert_eq!(report.body, serde_json::Value::Null);
}

#[test]
fn probe_of_another_type_is_unmatched() {
    let bare = BareReport::from_json(json(&NEL_REPORT.replace("network-error", "unknown"))).unwrap();
    assert!(bare.parse::<NEL>().is_none());
}

#[test]
fn probe_of_malformed_body_is_an_error() {
    let bare = BareReport::from_json(json(
        r#"{"age":1,"url":"u","user_agent":"a","type":"network-error","body":{"referrer":"r"}}"#,
    ))
    .unwrap();
    match bare.parse::<NEL>() {
        Some(Err(DecodeError::MissingField(field))) => assert_eq!(field, "sampling_fraction"),
        other => panic!("expected a schema error, got {:?}", other),
    }
}

#[test]
fn nel_status_code_may_be_absent_or_null() {
    let absent = r#"{"referrer":"","sampling_fraction":1,"server_ip":"","protocol":"","method":"GET","elapsed_time":null,"phase":"dns","type":"dns.unreachable"}"#;
    let body = NEL::from_body(json(absent)).unwrap();
    assert_eq!(body.status_code, None);
    assert_eq!(body.elapsed_time, None);
    let null = absent.replace(r#""method""#, r#""status_code":null,"method""#);
    assert_eq!(NEL::from_body(json(&null)).unwrap().status_code, None);
}

#[test]
fn nel_elapsed_time_is_required() {
    let text = r#"{"referrer":"","sampling_fraction":1,"server_ip":"","protocol":"","method":"GET","phase":"dns","type":"ok"}"#;
    assert_eq!(
        NEL::from_body(json(text)),
        Err(DecodeError::MissingField("elapsed_time".to_string()))
    );
}

#[test]
fn nel_status_code_must_fit_sixteen_bits() {
    let text = r#"{"referrer":"","sampling_fraction":1,"server_ip":"","protocol":"","method":"GET","status_code":70000,"elapsed_time":1,"phase":"dns","type":"ok"}"#;
    assert_eq!(
        NEL::from_body(json(text)),
        Err(DecodeError::InvalidField("status_code".to_string()))
    );
    let largest = text.replace("70000", "65535");
    assert_eq!(NEL::from_body(json(&largest)).unwrap().status_code, Some(65535));
}

#[test]
fn nel_body_must_be_an_object() {
    assert_eq!(NEL::from_body(json("\"ok\"")), Err(DecodeError::NotAnObject));
}

#[test]
fn bare_report_round_trips_through_json() {
    let report = BareReport::from_json(json(NEL_REPORT)).unwrap();
    let again = BareReport::from_json(json(NEL_REPORT)).unwrap();
    let written = report.to_json().unwrap();
    assert_eq!(written["age"], json("500"));
    assert_eq!(BareReport::from_json(written).unwrap(), again);
}

#[test]
fn bare_report_age_is_truncated_when_written() {
    let report = BareReport {
        age: Duration::from_micros(1_999),
        url: "u".to_string(),
        user_agent: "a".to_string(),
        report_type: "t".to_string(),
        body: serde_json::Value::Null,
    };
    let written = report.to_json().unwrap();
    assert_eq!(written["age"], json("1"));
    assert_eq!(BareReport::from_json(written).unwrap().age, Duration::from_millis(1));
}

#[test]
fn bare_report_age_too_long_is_not_written() {
    let report = BareReport {
        age: Duration::MAX,
        url: "u".to_string(),
        user_agent: "a".to_string(),
        report_type: "t".to_string(),
        body: serde_json::Value::Null,
    };
    assert!(report.to_json().is_none());
}

#[test]
fn nel_report_round_trips() {
    let report = Report { age: Duration::from_millis(500), url: "u".to_string(), user_agent: "a".to_string(), body: expected_nel() };
    let bare = report.to_bare().unwrap();
    assert_eq!(bare.report_type, "network-error");
    let written = bare.to_json().unwrap();
    let back: Report<NEL> = BareReport::from_json(written).unwrap().parse().unwrap().unwrap();
    assert_eq!(back, Report { age: Duration::from_millis(500), url: "u".to_string(), user_agent: "a".to_string(), body: expected_nel() });
}

#[test]
fn nel_body_writes_absent_values_as_null() {
    let mut body = expected_nel();
    body.status_code = None;
    body.elapsed_time = None;
    let written = body.to_body().unwrap();
    assert_eq!(written["status_code"], serde_json::Value::Null);
    assert_eq!(written["elapsed_time"], serde_json::Value::Null);
    assert_eq!(written["type"], json("\"ok\""));
    let mut expected = expected_nel();
    expected.status_code = None;
    expected.elapsed_time = None;
    assert_eq!(NEL::from_body(written).unwrap(), expected);
}

#[test]
fn nel_report_type_is_network_error() {
    assert_eq!(NEL::report_type(), "network-error");
}
