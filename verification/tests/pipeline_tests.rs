use sns_notify::error::Error;
use sns_notify::payload::parse_payload;
use sns_notify::publish::{
    build_publish_input, complete_publish, normalize_http, Acknowledgment, ProviderEvent, Topic,
};
use sns_notify::render::{
    render_cli_echo, render_cli_error, render_error_response, render_success_response,
    respond_event,
};

fn topic() -> Topic {
    Topic::new("arn:aws:sns:us-east-2:250463611689:email-me".to_string()).unwrap()
}

#[test]
fn publish_input_narrows_the_provider_surface() {
    let p = parse_payload("{\"message\":\"hello\",\"subject\":\"s\"}").unwrap();
    let req = normalize_http(p, topic());
    let inp = build_publish_input(req);
    assert_eq!(inp.message, "hello");
    assert_eq!(inp.subject.as_deref(), Some("s"));
    assert_eq!(inp.topic_arn.as_deref(), Some("arn:aws:sns:us-east-2:250463611689:email-me"));
    assert!(inp.message_attributes.is_none());
    assert!(inp.message_deduplication_id.is_none());
    assert!(inp.message_group_id.is_none());
    assert!(inp.message_structure.is_none());
    assert!(inp.phone_number.is_none());
    assert!(inp.target_arn.is_none());
}

#[test]
fn delivery_passes_the_acknowledgment_through() {
    let ev = ProviderEvent::Delivered(Acknowledgment {
        message_id: Some("msg-1".to_string()),
        sequence_number: None,
    });
    let ack = complete_publish(ev).unwrap();
    assert_eq!(ack.message_id.as_deref(), Some("msg-1"));
    assert!(ack.sequence_number.is_none());
}

#[test]
fn failures_classify_into_the_taxonomy() {
    assert!(matches!(
        complete_publish(ProviderEvent::Rejection("bad topic".to_string())),
        Err(Error::ProviderRejected(_))
    ));
    assert!(matches!(
        complete_publish(ProviderEvent::Dispatch("connection refused".to_string())),
        Err(Error::TransportFailure(_))
    ));
    assert!(matches!(
        complete_publish(ProviderEvent::Credentials("no credentials".to_string())),
        Err(Error::ConfigurationFailure(_))
    ));
    assert!(matches!(
        complete_publish(ProviderEvent::Validation("bad parameter".to_string())),
        Err(Error::ProviderRejected(_))
    ));
    assert!(matches!(
        complete_publish(ProviderEvent::Parse("garbled".to_string())),
        Err(Error::ProviderRejected(_))
    ));
    assert!(matches!(
        complete_publish(ProviderEvent::Unknown("status 503".to_string())),
        Err(Error::ProviderRejected(_))
    ));
    assert!(matches!(
        complete_publish(ProviderEvent::Blocking),
        Err(Error::TransportFailure(_))
    ));
}

#[test]
fn transport_failure_keeps_its_description() {
    let e = complete_publish(ProviderEvent::Dispatch("connection refused".to_string()))
        .unwrap_err();
    assert_eq!(e.text(), "connection refused");
    assert_eq!(render_cli_error(&e), "error: connection refused\n");
    let r = render_error_response(&e);
    assert_eq!(r.status, 500);
    assert_eq!(r.body, "{\"message\":\"connection refused\"}");
}

#[test]
fn success_response_round_trips_through_json() {
    let ack = Acknowledgment {
        message_id: Some("id-123".to_string()),
        sequence_number: Some("42".to_string()),
    };
    let r = render_success_response(&ack);
    assert_eq!(r.status, 200);
    let v: serde_json::Value = serde_json::from_str(&r.body).unwrap();
    assert_eq!(v["message_id"].as_str(), Some("id-123"));
    assert_eq!(v["sequence_number"].as_str(), Some("42"));
}

#[test]
fn success_response_renders_missing_fields_as_null() {
    let ack = Acknowledgment { message_id: None, sequence_number: None };
    let r = render_success_response(&ack);
    assert_eq!(r.body, "{\"message_id\":null,\"sequence_number\":null}");
    let v: serde_json::Value = serde_json::from_str(&r.body).unwrap();
    assert!(v["message_id"].is_null());
}

#[test]
fn error_response_escapes_its_description() {
    let e = Error::ProviderRejected("a \"quoted\"\nline".to_string());
    let r = render_error_response(&e);
    assert_eq!(r.body, "{\"message\":\"a \\\"quoted\\\"\\nline\"}");
    let v: serde_json::Value = serde_json::from_str(&r.body).unwrap();
    assert_eq!(v["message"].as_str(), Some("a \"quoted\"\nline"));
}

#[test]
fn malformed_body_renders_as_json_500() {
    let e = parse_payload("{not json").unwrap_err();
    let r = render_error_response(&e);
    assert_eq!(r.status, 500);
    let v: serde_json::Value = serde_json::from_str(&r.body).unwrap();
    assert!(v["message"].as_str().is_some());
}

#[test]
fn cli_echo_prints_subject_and_message() {
    let p = parse_payload("{\"message\":\"body text\",\"subject\":\"head\"}").unwrap();
    let req = normalize_http(p, topic());
    assert_eq!(render_cli_echo(&req), "Subject: head\nMessage: body text\n");
}

#[test]
fn cli_echo_leaves_missing_subject_blank() {
    let p = parse_payload("{\"message\":\"m\"}").unwrap();
    let req = normalize_http(p, topic());
    assert_eq!(render_cli_echo(&req), "Subject: \nMessage: m\n");
}

#[test]
fn concurrent_style_requests_stay_independent() {
    let p1 = parse_payload("{\"message\":\"first\"}").unwrap();
    let p2 = parse_payload("{\"message\":\"second\"}").unwrap();
    let i1 = build_publish_input(normalize_http(p1, topic()));
    let i2 = build_publish_input(normalize_http(p2, topic()));
    assert_eq!(i1.message, "first");
    assert_eq!(i2.message, "second");
    let r1 = respond_event(ProviderEvent::Delivered(Acknowledgment {
        message_id: Some("a".to_string()),
        sequence_number: None,
    }));
    let r2 = respond_event(ProviderEvent::Dispatch("down".to_string()));
    assert_eq!(r1.status, 200);
    assert_eq!(r2.status, 500);
    assert!(r1.body.contains("\"a\""));
    assert!(r2.body.contains("down"));
}

#[test]
fn empty_topic_identifier_is_rejected() {
    assert!(matches!(Topic::new(String::new()), Err(Error::InvalidInput(_))));
}

#[test]
fn http_prepare_builds_the_input_or_renders_the_rejection() {
    let ok = sns_notify::render::http_prepare("{\"message\":\"m\"}", topic()).unwrap();
    assert_eq!(ok.message, "m");
    assert_eq!(ok.topic_arn.as_deref(), Some("arn:aws:sns:us-east-2:250463611689:email-me"));
    let err = sns_notify::render::http_prepare("{not json", topic()).unwrap_err();
    assert_eq!(err.status, 500);
    let v: serde_json::Value = serde_json::from_str(&err.body).unwrap();
    assert!(v["message"].as_str().is_some());
}
