use activity_feed::event::{Event, EventKind, IssueRef, Payload, RepoRef};
use activity_feed::fetch::fetch_outcome;
use activity_feed::render::{render_event, render_events};

fn ev(
    kind: EventKind,
    repo: &str,
    action: Option<&str>,
    issue_url: Option<&str>,
    before: Option<&str>,
    head: Option<&str>,
    created_at: &str,
) -> Event {
    Event {
        kind,
        payload: Payload {
            action: action.map(|s| s.to_string()),
            issue: issue_url.map(|u| IssueRef { url: u.to_string() }),
            head: head.map(|s| s.to_string()),
            before: before.map(|s| s.to_string()),
        },
        repo: RepoRef { name: repo.to_string() },
        created_at: created_at.to_string(),
    }
}

fn plain(kind: EventKind) -> Event {
    ev(kind, "octo/repo", None, None, None, None, "2024-01-01T00:00:00Z")
}

#[test]
fn created_line() {
    let line = render_event(&plain(EventKind::Create), 0);
    assert_eq!(line, Some("Created octo/repo".to_string()));
}

#[test]
fn deleted_line() {
    let line = render_event(&plain(EventKind::Delete), 0);
    assert_eq!(line, Some("Deleted octo/repo".to_string()));
}

#[test]
fn forked_line() {
    let line = render_event(&plain(EventKind::Fork), 0);
    assert_eq!(line, Some("Forked octo/repo".to_string()));
}

#[test]
fn starred_line() {
    let line = render_event(&plain(EventKind::Watch), 0);
    assert_eq!(line, Some("Starred octo/repo".to_string()));
}

#[test]
fn push_with_count() {
    let line = render_event(&plain(EventKind::Push), 3);
    assert_eq!(line, Some("Pushed 3 commit(s) to octo/repo".to_string()));
}

#[test]
fn push_without_count() {
    let line = render_event(&plain(EventKind::Push), 0);
    assert_eq!(line, Some("Pushed to octo/repo".to_string()));
}

#[test]
fn issue_comment_with_url() {
    let e = ev(
        EventKind::IssueComment,
        "octo/repo",
        Some("created"),
        Some("https://api.github.com/repos/octo/repo/issues/7"),
        None,
        None,
        "2024-01-01T00:00:00Z",
    );
    let line = render_event(&e, 0);
    assert_eq!(
        line,
        Some("Commented on https://api.github.com/repos/octo/repo/issues/7".to_string())
    );
}

#[test]
fn issue_comment_without_url_skipped() {
    let line = render_event(&plain(EventKind::IssueComment), 0);
    assert_eq!(line, None);
}

#[test]
fn issues_with_action() {
    let e = ev(EventKind::Issues, "octo/repo", Some("opened"), None, None, None, "t");
    assert_eq!(render_event(&e, 0), Some("opened issue on octo/repo".to_string()));
}

#[test]
fn issues_without_action_skipped() {
    assert_eq!(render_event(&plain(EventKind::Issues), 0), None);
}

#[test]
fn pull_request_with_action() {
    let e = ev(EventKind::PullRequest, "octo/repo", Some("closed"), None, None, None, "t");
    assert_eq!(render_event(&e, 0), Some("closed pull request on octo/repo".to_string()));
}

#[test]
fn pull_request_without_action_skipped() {
    assert_eq!(render_event(&plain(EventKind::PullRequest), 0), None);
}

#[test]
fn commit_comment_with_action() {
    let e = ev(EventKind::CommitComment, "octo/repo", Some("created"), None, None, None, "t");
    assert_eq!(render_event(&e, 0), Some("created octo/repo".to_string()));
}

#[test]
fn commit_comment_without_action_skipped() {
    assert_eq!(render_event(&plain(EventKind::CommitComment), 0), None);
}

#[test]
fn known_kind_outside_table_gets_generic_line() {
    let e = ev(
        EventKind::Release,
        "octo/repo",
        Some("published"),
        None,
        None,
        None,
        "2024-01-01T00:00:00Z",
    );
    assert_eq!(
        render_event(&e, 0),
        Some("[ReleaseEvent] on octo/repo at 2024-01-01T00:00:00Z published".to_string())
    );
}

#[test]
fn unknown_kind_gets_generic_line() {
    let e = ev(
        EventKind::Unknown("SponsorshipEvent".to_string()),
        "octo/repo",
        None,
        None,
        None,
        None,
        "2024-01-01T00:00:00Z",
    );
    assert_eq!(
        render_event(&e, 0),
        Some("[SponsorshipEvent] on octo/repo at 2024-01-01T00:00:00Z ".to_string())
    );
}

#[test]
fn wiki_edit_gets_generic_line() {
    let e = ev(EventKind::WikiEdit, "octo/repo", None, None, None, None, "t");
    assert_eq!(render_event(&e, 0), Some("[GollumEvent] on octo/repo at t ".to_string()));
}

#[test]
fn feed_renders_in_order_with_skips() {
    let events = vec![
        ev(EventKind::Create, "r1", None, None, None, None, "t"),
        ev(EventKind::Issues, "r2", None, None, None, None, "t"),
        ev(EventKind::Watch, "r3", None, None, None, None, "t"),
        ev(EventKind::IssueComment, "r4", None, None, None, None, "t"),
        ev(EventKind::Push, "r5", None, None, None, None, "t"),
    ];
    let counts = vec![0, 0, 0, 0, 0];
    let lines = render_events(&events, &counts);
    assert_eq!(
        lines,
        vec![
            "Created r1".to_string(),
            "Starred r3".to_string(),
            "Pushed to r5".to_string(),
        ]
    );
    assert!(lines.len() <= events.len());
}

#[test]
fn minimal_fixtures_round_trip() {
    let events = vec![
        ev(EventKind::Create, "o/r", None, None, None, None, "t"),
        ev(EventKind::Delete, "o/r", None, None, None, None, "t"),
        ev(EventKind::Fork, "o/r", None, None, None, None, "t"),
        ev(EventKind::Watch, "o/r", None, None, None, None, "t"),
        ev(EventKind::Push, "o/r", None, None, Some("a"), Some("b"), "t"),
        ev(EventKind::IssueComment, "o/r", None, Some("u"), None, None, "t"),
        ev(EventKind::Issues, "o/r", Some("opened"), None, None, None, "t"),
        ev(EventKind::PullRequest, "o/r", Some("closed"), None, None, None, "t"),
        ev(EventKind::CommitComment, "o/r", Some("created"), None, None, None, "t"),
    ];
    let fetched = fetch_outcome(200, None, Ok(events)).expect("success body must be Ok");
    let counts = vec![0, 0, 0, 0, 2, 0, 0, 0, 0];
    let lines = render_events(&fetched, &counts);
    let expected = vec![
        "Created o/r",
        "Deleted o/r",
        "Forked o/r",
        "Starred o/r",
        "Pushed 2 commit(s) to o/r",
        "Commented on u",
        "opened issue on o/r",
        "closed pull request on o/r",
        "created o/r",
    ];
    assert_eq!(lines.len(), expected.len());
    for (line, want) in lines.iter().zip(expected.iter()) {
        assert_eq!(line.as_bytes(), want.as_bytes());
    }
}
