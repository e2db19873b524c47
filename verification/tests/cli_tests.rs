use sns_notify::cli::{parse_cli, usage_text, CliAction};
use sns_notify::error::Error;

fn args(list: &[&str]) -> Vec<String> {
    list.iter().map(|s| s.to_string()).collect()
}

#[test]
fn no_arguments_asks_for_usage() {
    let a = parse_cli(&args(&[])).unwrap();
    assert!(matches!(a, CliAction::Usage));
}

#[test]
fn usage_text_names_every_flag() {
    let u = usage_text("prog");
    assert!(u.starts_with("Usage: prog <message>"));
    assert!(u.contains("--region"));
    assert!(u.contains("--topic-arn"));
    assert!(u.contains("--subject"));
    assert!(u.contains("--server"));
}

#[test]
fn bare_message_publishes_with_defaults() {
    let a = parse_cli(&args(&["hello world"])).unwrap();
    match a {
        CliAction::Publish(c) => {
            assert_eq!(c.region, "us-east-2");
            assert_eq!(c.request.message, "hello world");
            assert!(c.request.subject.is_none());
            assert_eq!(c.request.topic.arn, "arn:aws:sns:us-east-2:250463611689:email-me");
        },
        _ => panic!("expected a publish action"),
    }
}

#[test]
fn flags_override_defaults() {
    let a = parse_cli(&args(&["--region=eu-west-1", "-t", "arn:topic", "-s", "subj", "msg"]))
        .unwrap();
    match a {
        CliAction::Publish(c) => {
            assert_eq!(c.region, "eu-west-1");
            assert_eq!(c.request.topic.arn, "arn:topic");
            assert_eq!(c.request.subject.as_deref(), Some("subj"));
            assert_eq!(c.request.message, "msg");
        },
        _ => panic!("expected a publish action"),
    }
}

#[test]
fn attached_short_values_are_taken() {
    let a = parse_cli(&args(&["-reu-north-1", "m"])).unwrap();
    match a {
        CliAction::Publish(c) => assert_eq!(c.region, "eu-north-1"),
        _ => panic!("expected a publish action"),
    }
}

#[test]
fn first_flag_occurrence_wins() {
    let a = parse_cli(&args(&["-r", "first", "-r", "second", "m"])).unwrap();
    match a {
        CliAction::Publish(c) => assert_eq!(c.region, "first"),
        _ => panic!("expected a publish action"),
    }
}

#[test]
fn server_flag_selects_service_mode() {
    let a = parse_cli(&args(&["-e", "ignored message"])).unwrap();
    match a {
        CliAction::Serve(c) => {
            assert_eq!(c.region, "us-east-2");
            assert_eq!(c.topic.arn, "arn:aws:sns:us-east-2:250463611689:email-me");
        },
        _ => panic!("expected service mode"),
    }
}

#[test]
fn long_server_flag_works() {
    let a = parse_cli(&args(&["--server"])).unwrap();
    assert!(matches!(a, CliAction::Serve(_)));
}

#[test]
fn double_dash_ends_flag_parsing() {
    let a = parse_cli(&args(&["--", "-e"])).unwrap();
    match a {
        CliAction::Publish(c) => assert_eq!(c.request.message, "-e"),
        _ => panic!("expected a publish action"),
    }
}

#[test]
fn unknown_flag_is_rejected() {
    assert!(matches!(parse_cli(&args(&["-x", "m"])), Err(Error::InvalidInput(_))));
    assert!(matches!(parse_cli(&args(&["--unknown", "m"])), Err(Error::InvalidInput(_))));
}

#[test]
fn missing_flag_value_is_rejected() {
    assert!(matches!(parse_cli(&args(&["-r"])), Err(Error::InvalidInput(_))));
    assert!(matches!(parse_cli(&args(&["m", "--subject"])), Err(Error::InvalidInput(_))));
}

#[test]
fn value_handed_to_server_flag_is_rejected() {
    assert!(matches!(parse_cli(&args(&["--server=yes"])), Err(Error::InvalidInput(_))));
}

#[test]
fn empty_topic_is_rejected() {
    assert!(matches!(parse_cli(&args(&["-t", "", "m"])), Err(Error::InvalidInput(_))));
}
