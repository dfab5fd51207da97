use activity_feed::event::{classify_kind, kind_label, EventKind};
use activity_feed::text::{parse_u64, u64_to_string};
use activity_feed::time::reset_time_string;

#[test]
fn decimal_formatting_exact() {
    assert_eq!(u64_to_string(0), "0".to_string());
    assert_eq!(u64_to_string(42), "42".to_string());
    assert_eq!(u64_to_string(1000), "1000".to_string());
    assert_eq!(
        u64_to_string(u64::MAX),
        "18446744073709551615".to_string()
    );
}

#[test]
fn decimal_parsing_accepts_digit_strings() {
    assert_eq!(parse_u64("0"), Some(0));
    assert_eq!(parse_u64("42"), Some(42));
    assert_eq!(parse_u64("007"), Some(7));
    assert_eq!(parse_u64("18446744073709551615"), Some(u64::MAX));
}

#[test]
fn decimal_parsing_rejects_everything_else() {
    assert_eq!(parse_u64(""), None);
    assert_eq!(parse_u64("+1"), None);
    assert_eq!(parse_u64("-1"), None);
    assert_eq!(parse_u64("1a"), None);
    assert_eq!(parse_u64(" 1"), None);
    assert_eq!(parse_u64("18446744073709551616"), None);
}

#[test]
fn reset_time_renders_time_of_day() {
    assert_eq!(
        reset_time_string(Some(&"0".to_string())),
        "00:00:00".to_string()
    );
    assert_eq!(
        reset_time_string(Some(&"86399".to_string())),
        "23:59:59".to_string()
    );
    assert_eq!(
        reset_time_string(Some(&"1700000000".to_string())),
        "22:13:20".to_string()
    );
}

#[test]
fn reset_time_falls_back_to_unknown() {
    assert_eq!(reset_time_string(None), "unknown time".to_string());
    assert_eq!(
        reset_time_string(Some(&"not-a-number".to_string())),
        "unknown time".to_string()
    );
}

#[test]
fn known_wire_names_classify_and_label_round_trip() {
    let names = vec![
        "CommitCommentEvent",
        "CreateEvent",
        "DeleteEvent",
        "DiscussionEvent",
        "ForkEvent",
        "GollumEvent",
        "IssueCommentEvent",
        "IssuesEvent",
        "MemberEvent",
        "PublicEvent",
        "PullRequestEvent",
        "PullRequestReviewEvent",
        "PullRequestReviewCommentEvent",
        "PushEvent",
        "ReleaseEvent",
        "WatchEvent",
    ];
    for name in names {
        let kind = classify_kind(name);
        assert!(!matches!(&kind, EventKind::Unknown(_)), "{name} must be known");
        assert_eq!(kind_label(&kind), name.to_string());
    }
}

#[test]
fn unrecognized_wire_name_is_kept_verbatim() {
    let kind = classify_kind("SponsorshipEvent");
    assert!(matches!(&kind, EventKind::Unknown(raw) if raw == "SponsorshipEvent"));
    assert_eq!(kind_label(&kind), "SponsorshipEvent".to_string());
}
