use github_activity::errors::AppError;
use github_activity::fetch::decode_events;
use github_activity::render::{render_all, report_lines};

#[test]
fn unknown_kind_is_a_decode_error() {
    let body = r#"[{"type": "TeleportEvent", "repo": {"name": "octo/r"}, "payload": {}}]"#;
    let r = decode_events(body);
    match r {
        Err(AppError::DecodeError(msg)) => {
            assert_eq!(msg, "unknown event kind `TeleportEvent`");
        }
        _ => panic!("expected a decode error"),
    }
}

#[test]
fn empty_array_yields_no_events_notice() {
    let events = decode_events("[]").unwrap();
    assert_eq!(events.len(), 0);
    let lines = report_lines(&events);
    assert_eq!(lines.len(), 1);
    assert_eq!(lines[0], "No events listed for this user.");
}

#[test]
fn non_array_body_is_a_decode_error() {
    assert!(matches!(
        decode_events("{}"),
        Err(AppError::DecodeError(_))
    ));
}

#[test]
fn malformed_body_is_a_decode_error() {
    assert!(matches!(
        decode_events("not json"),
        Err(AppError::DecodeError(_))
    ));
}

#[test]
fn missing_type_is_a_decode_error() {
    let body = r#"[{"repo": {"name": "octo/r"}, "payload": {}}]"#;
    assert!(matches!(
        decode_events(body),
        Err(AppError::DecodeError(_))
    ));
}

#[test]
fn missing_repo_name_is_a_decode_error() {
    let body = r#"[{"type": "WatchEvent", "repo": {}, "payload": {}}]"#;
    assert!(matches!(
        decode_events(body),
        Err(AppError::DecodeError(_))
    ));
}

#[test]
fn missing_payload_is_a_decode_error() {
    let body = r#"[{"type": "WatchEvent", "repo": {"name": "octo/r"}}]"#;
    assert!(matches!(
        decode_events(body),
        Err(AppError::DecodeError(_))
    ));
}

#[test]
fn non_object_payload_is_a_decode_error() {
    let body = r#"[{"type": "WatchEvent", "repo": {"name": "octo/r"}, "payload": 3}]"#;
    assert!(matches!(
        decode_events(body),
        Err(AppError::DecodeError(_))
    ));
}

#[test]
fn one_bad_record_fails_the_whole_body() {
    let body = r#"[
        {"type": "WatchEvent", "repo": {"name": "octo/r"}, "payload": {}},
        {"type": "NopeEvent", "repo": {"name": "octo/r"}, "payload": {}}
    ]"#;
    assert!(matches!(
        decode_events(body),
        Err(AppError::DecodeError(_))
    ));
}

#[test]
fn push_event_decodes_and_renders() {
    let body = r#"[{"type": "PushEvent", "repo": {"name": "octo/r"}, "payload": {"size": 3}}]"#;
    let events = decode_events(body).unwrap();
    let lines = render_all(&events);
    assert_eq!(lines.len(), 1);
    assert_eq!(lines[0], "- pushed 3 commits to octo/r");
}

#[test]
fn order_is_preserved() {
    let body = r#"[
        {"type": "ForkEvent", "repo": {"name": "a/a"}, "payload": {}},
        {"type": "WatchEvent", "repo": {"name": "b/b"}, "payload": {}}
    ]"#;
    let events = decode_events(body).unwrap();
    let lines = report_lines(&events);
    assert_eq!(lines.len(), 2);
    assert_eq!(lines[0], "- forked a/a");
    assert_eq!(lines[1], "- starred b/b");
}

#[test]
fn fractional_size_falls_back_to_one_commit() {
    let body = r#"[{"type": "PushEvent", "repo": {"name": "octo/r"}, "payload": {"size": 2.5}}]"#;
    let events = decode_events(body).unwrap();
    assert_eq!(events[0].render(), "- pushed 1 commit to octo/r");
}

#[test]
fn string_action_in_payload_is_read() {
    let body =
        r#"[{"type": "IssuesEvent", "repo": {"name": "octo/r"}, "payload": {"action": "closed", "number": 9}}]"#;
    let events = decode_events(body).unwrap();
    assert_eq!(events[0].render(), "- closed an issue in octo/r");
}

#[test]
fn nested_payload_values_are_tolerated() {
    let body = r#"[{"type": "WatchEvent", "repo": {"name": "octo/r"},
        "payload": {"extra": {"deep": [1, 2]}, "flag": true, "nothing": null}}]"#;
    let events = decode_events(body).unwrap();
    assert_eq!(events[0].render(), "- starred octo/r");
}
