use github_activity::models::{EventData, EventType, Payload, PayloadEntry, PayloadValue};

fn event(kind: EventType, repo: &str, entries: Vec<PayloadEntry>) -> EventData {
    EventData {
        kind,
        repository_name: repo.to_string(),
        payload: Payload { entries },
    }
}

fn text_entry(key: &str, val: &str) -> PayloadEntry {
    PayloadEntry {
        key: key.to_string(),
        value: PayloadValue::Text(val.to_string()),
    }
}

fn int_entry(key: &str, val: i64) -> PayloadEntry {
    PayloadEntry {
        key: key.to_string(),
        value: PayloadValue::Int(val),
    }
}

#[test]
fn push_size_absent_renders_singular() {
    let e = event(EventType::PushEvent, "REPO", vec![]);
    assert_eq!(e.render(), "- pushed 1 commit to REPO");
}

#[test]
fn push_size_three_renders_plural() {
    let e = event(EventType::PushEvent, "REPO", vec![int_entry("size", 3)]);
    assert_eq!(e.render(), "- pushed 3 commits to REPO");
}

#[test]
fn push_size_negative_renders_minus_sign() {
    let e = event(EventType::PushEvent, "REPO", vec![int_entry("size", -5)]);
    assert_eq!(e.render(), "- pushed -5 commits to REPO");
}

#[test]
fn push_size_wrong_type_falls_back_to_one() {
    let e = event(EventType::PushEvent, "REPO", vec![text_entry("size", "3")]);
    assert_eq!(e.render(), "- pushed 1 commit to REPO");
}

#[test]
fn push_size_large() {
    let e = event(
        EventType::PushEvent,
        "REPO",
        vec![int_entry("size", 9_223_372_036_854_775_807)],
    );
    assert_eq!(e.render(), "- pushed 9223372036854775807 commits to REPO");
}

#[test]
fn create_repository_special_case() {
    let e = event(
        EventType::CreateEvent,
        "REPO",
        vec![text_entry("ref_type", "repository")],
    );
    assert_eq!(e.render(), "- created the repository REPO");
}

#[test]
fn create_ref_type_absent_defaults_to_branch() {
    let e = event(EventType::CreateEvent, "REPO", vec![]);
    assert_eq!(e.render(), "- created a new branch in REPO");
}

#[test]
fn create_tag() {
    let e = event(
        EventType::CreateEvent,
        "REPO",
        vec![text_entry("ref_type", "tag")],
    );
    assert_eq!(e.render(), "- created a new tag in REPO");
}

#[test]
fn delete_tag() {
    let e = event(
        EventType::DeleteEvent,
        "REPO",
        vec![text_entry("ref_type", "tag")],
    );
    assert_eq!(e.render(), "- deleted a tag in REPO");
}

#[test]
fn delete_ref_type_absent_defaults_to_branch() {
    let e = event(EventType::DeleteEvent, "REPO", vec![]);
    assert_eq!(e.render(), "- deleted a branch in REPO");
}

#[test]
fn watch() {
    let e = event(EventType::WatchEvent, "REPO", vec![]);
    assert_eq!(e.render(), "- starred REPO");
}

#[test]
fn sponsorship() {
    let e = event(EventType::SponsorshipEvent, "REPO", vec![]);
    assert_eq!(e.render(), "- sponsored REPO");
}

#[test]
fn public() {
    let e = event(EventType::PublicEvent, "REPO", vec![]);
    assert_eq!(e.render(), "- made REPO a public repository");
}

#[test]
fn gollum() {
    let e = event(EventType::GollumEvent, "REPO", vec![]);
    assert_eq!(e.render(), "- updated wiki pages of REPO");
}

#[test]
fn fork() {
    let e = event(EventType::ForkEvent, "REPO", vec![]);
    assert_eq!(e.render(), "- forked REPO");
}

#[test]
fn release_default_action() {
    let e = event(EventType::ReleaseEvent, "REPO", vec![]);
    assert_eq!(e.render(), "- published a release in REPO");
}

#[test]
fn release_explicit_action() {
    let e = event(
        EventType::ReleaseEvent,
        "REPO",
        vec![text_entry("action", "edited")],
    );
    assert_eq!(e.render(), "- edited a release in REPO");
}

#[test]
fn review_thread_default_action() {
    let e = event(EventType::PullRequestReviewThreadEvent, "REPO", vec![]);
    assert_eq!(e.render(), "- marked a pull request as resolved in REPO");
}

#[test]
fn review_comment_default_action() {
    let e = event(EventType::PullRequestReviewCommentEvent, "REPO", vec![]);
    assert_eq!(e.render(), "- created a pull request comment in REPO");
}

#[test]
fn review_default_action() {
    let e = event(EventType::PullRequestReviewEvent, "REPO", vec![]);
    assert_eq!(e.render(), "- created a pull request review in REPO");
}

#[test]
fn pull_request_default_action() {
    let e = event(EventType::PullRequestEvent, "REPO", vec![]);
    assert_eq!(e.render(), "- opened a pull request in REPO");
}

#[test]
fn member_default_action() {
    let e = event(EventType::MemberEvent, "REPO", vec![]);
    assert_eq!(e.render(), "- added a member as a collaborator of REPO");
}

#[test]
fn issues_default_action() {
    let e = event(EventType::IssuesEvent, "REPO", vec![]);
    assert_eq!(e.render(), "- opened an issue in REPO");
}

#[test]
fn issue_comment_default_action() {
    let e = event(EventType::IssueCommentEvent, "REPO", vec![]);
    assert_eq!(e.render(), "- created an issue comment in REPO");
}

#[test]
fn commit_comment_default_action() {
    let e = event(EventType::CommitCommentEvent, "REPO", vec![]);
    assert_eq!(e.render(), "- created a commit comment in REPO");
}

#[test]
fn action_wrong_type_falls_back_to_default() {
    let e = event(
        EventType::IssuesEvent,
        "REPO",
        vec![int_entry("action", 7)],
    );
    assert_eq!(e.render(), "- opened an issue in REPO");
}

#[test]
fn first_matching_key_decides() {
    let e = event(
        EventType::IssuesEvent,
        "REPO",
        vec![text_entry("other", "x"), text_entry("action", "closed")],
    );
    assert_eq!(e.render(), "- closed an issue in REPO");
}

#[test]
fn every_kind_renders_nonempty_with_prefix() {
    let kinds = [
        EventType::WatchEvent,
        EventType::SponsorshipEvent,
        EventType::ReleaseEvent,
        EventType::PushEvent,
        EventType::PullRequestReviewThreadEvent,
        EventType::PullRequestReviewCommentEvent,
        EventType::PullRequestReviewEvent,
        EventType::PullRequestEvent,
        EventType::PublicEvent,
        EventType::MemberEvent,
        EventType::IssuesEvent,
        EventType::IssueCommentEvent,
        EventType::GollumEvent,
        EventType::ForkEvent,
        EventType::DeleteEvent,
        EventType::CreateEvent,
        EventType::CommitCommentEvent,
    ];
    for kind in kinds {
        let line = event(kind, "REPO", vec![]).render();
        assert!(!line.is_empty());
        assert!(line.starts_with("- "));
    }
}
