use sns_notify::error::Error;
use sns_notify::payload::parse_payload;

#[test]
fn accepts_message_only() {
    let p = parse_payload("{\"message\":\"hello\"}").unwrap();
    assert_eq!(p.message, "hello");
    assert!(p.subject.is_none());
}

#[test]
fn accepts_message_and_subject() {
    let p = parse_payload("{\"message\":\"hi\",\"subject\":\"greeting\"}").unwrap();
    assert_eq!(p.message, "hi");
    assert_eq!(p.subject.as_deref(), Some("greeting"));
}

#[test]
fn accepts_empty_message_string() {
    let p = parse_payload("{\"message\":\"\"}").unwrap();
    assert_eq!(p.message, "");
}

#[test]
fn accepts_null_subject() {
    let p = parse_payload("{\"subject\":null,\"message\":\"m\"}").unwrap();
    assert_eq!(p.message, "m");
    assert!(p.subject.is_none());
}

#[test]
fn ignores_unknown_fields() {
    let body = "{\"message\":\"m\",\"extra\":[1,-2.5e3,{\"a\":false,\"b\":[]}],\"more\":true}";
    let p = parse_payload(body).unwrap();
    assert_eq!(p.message, "m");
}

#[test]
fn tolerates_whitespace() {
    let p = parse_payload("  {\t\"message\" :\n\"x\" }  ").unwrap();
    assert_eq!(p.message, "x");
}

#[test]
fn unescapes_message_contents() {
    let p = parse_payload("{\"message\":\"a\\n\\t\\\"b\\\\c\\/\\u0041\"}").unwrap();
    assert_eq!(p.message, "a\n\t\"b\\c/A");
}

#[test]
fn unescapes_surrogate_pairs() {
    let p = parse_payload("{\"message\":\"\\ud83d\\ude00\"}").unwrap();
    assert_eq!(p.message, "\u{1F600}");
}

#[test]
fn rejects_lone_surrogate() {
    assert!(matches!(
        parse_payload("{\"message\":\"\\ud83d\"}"),
        Err(Error::SerializationFailure(_))
    ));
}

#[test]
fn rejects_malformed_json() {
    assert!(matches!(parse_payload("{not json"), Err(Error::SerializationFailure(_))));
}

#[test]
fn rejects_missing_message() {
    assert!(matches!(
        parse_payload("{\"subject\":\"hi\"}"),
        Err(Error::SerializationFailure(_))
    ));
}

#[test]
fn rejects_empty_body() {
    assert!(matches!(parse_payload(""), Err(Error::SerializationFailure(_))));
}

#[test]
fn rejects_empty_object() {
    assert!(matches!(parse_payload("{}"), Err(Error::SerializationFailure(_))));
}

#[test]
fn rejects_non_object_top_level() {
    assert!(matches!(parse_payload("[\"message\"]"), Err(Error::SerializationFailure(_))));
    assert!(matches!(parse_payload("\"message\""), Err(Error::SerializationFailure(_))));
}

#[test]
fn rejects_duplicate_message() {
    assert!(matches!(
        parse_payload("{\"message\":\"a\",\"message\":\"b\"}"),
        Err(Error::SerializationFailure(_))
    ));
}

#[test]
fn rejects_duplicate_subject() {
    assert!(matches!(
        parse_payload("{\"subject\":null,\"subject\":\"s\",\"message\":\"m\"}"),
        Err(Error::SerializationFailure(_))
    ));
}

#[test]
fn rejects_wrong_message_type() {
    assert!(matches!(parse_payload("{\"message\":5}"), Err(Error::SerializationFailure(_))));
    assert!(matches!(
        parse_payload("{\"message\":null}"),
        Err(Error::SerializationFailure(_))
    ));
}

#[test]
fn rejects_wrong_subject_type() {
    assert!(matches!(
        parse_payload("{\"message\":\"m\",\"subject\":[]}"),
        Err(Error::SerializationFailure(_))
    ));
}

#[test]
fn rejects_trailing_garbage() {
    assert!(matches!(
        parse_payload("{\"message\":\"m\"} x"),
        Err(Error::SerializationFailure(_))
    ));
}

#[test]
fn rejects_numbers_with_leading_zeros_in_unknown_fields() {
    assert!(matches!(
        parse_payload("{\"n\":01,\"message\":\"m\"}"),
        Err(Error::SerializationFailure(_))
    ));
}

#[test]
fn rejects_overly_deep_nesting() {
    let mut body = String::from("{\"message\":\"m\",\"deep\":");
    for _ in 0..200 {
        body.push('[');
    }
    for _ in 0..200 {
        body.push(']');
    }
    body.push('}');
    assert!(matches!(parse_payload(&body), Err(Error::SerializationFailure(_))));
}

#[test]
fn accepts_moderate_nesting() {
    let mut body = String::from("{\"message\":\"m\",\"deep\":");
    for _ in 0..50 {
        body.push('[');
    }
    for _ in 0..50 {
        body.push(']');
    }
    body.push('}');
    assert!(parse_payload(&body).is_ok());
}
