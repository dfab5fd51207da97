//! The event model: the kinds of feed event the platform reports, the
//! payload fields that accompany them, and the classification of a raw
//! event-type string into a kind.

use vstd::prelude::*;
use crate::text::str_eq;
use vstd::string::StringExecFns;

verus! {

/// One kind of user-activity event. The platform's wire names end in
/// `Event` (`PushEvent`, `GollumEvent`, ...); a name outside the known
/// set is kept verbatim in `Unknown`, so new kinds degrade to the
/// generic rendering instead of failing.
pub enum EventKind {
    CommitComment,
    Create,
    Delete,
    Discussion,
    Fork,
    WikiEdit,
    IssueComment,
    Issues,
    Member,
    Public,
    PullRequest,
    PullRequestReview,
    PullRequestReviewComment,
    Push,
    Release,
    Watch,
    Unknown(String),
}

/// A repository reference: its `owner/name` slug.
pub struct RepoRef {
    pub name: String,
}

/// An issue reference: its URL.
pub struct IssueRef {
    pub url: String,
}

/// The optional payload fields; which ones are meaningful depends on
/// the event's kind, and absence is valid, not an error.
pub struct Payload {
    pub action: Option<String>,
    pub issue: Option<IssueRef>,
    pub head: Option<String>,
    pub before: Option<String>,
}

/// One user-activity event of the feed.
pub struct Event {
    pub kind: EventKind,
    pub payload: Payload,
    pub repo: RepoRef,
    pub created_at: String,
}

/// The body of a compare-endpoint answer: how many commits lie between
/// the two revisions.
pub struct CompareResult {
    pub total_commits: usize,
}

/// The wire name of an event kind: the platform's type string for a
/// known kind, and the raw string itself for an unknown one.
pub open spec fn spec_kind_label(k: EventKind) -> Seq<char> {
    match k {
        EventKind::CommitComment => "CommitCommentEvent"@,
        EventKind::Create => "CreateEvent"@,
        EventKind::Delete => "DeleteEvent"@,
        EventKind::Discussion => "DiscussionEvent"@,
        EventKind::Fork => "ForkEvent"@,
        EventKind::WikiEdit => "GollumEvent"@,
        EventKind::IssueComment => "IssueCommentEvent"@,
        EventKind::Issues => "IssuesEvent"@,
        EventKind::Member => "MemberEvent"@,
        EventKind::Public => "PublicEvent"@,
        EventKind::PullRequest => "PullRequestEvent"@,
        EventKind::PullRequestReview => "PullRequestReviewEvent"@,
        EventKind::PullRequestReviewComment => "PullRequestReviewCommentEvent"@,
        EventKind::Push => "PushEvent"@,
        EventKind::Release => "ReleaseEvent"@,
        EventKind::Watch => "WatchEvent"@,
        EventKind::Unknown(s) => s@,
    }
}

/// Whether `s` is the wire name of one of the known event kinds.
pub open spec fn spec_known_type(s: Seq<char>) -> bool {
    ||| s == "CommitCommentEvent"@
    ||| s == "CreateEvent"@
    ||| s == "DeleteEvent"@
    ||| s == "DiscussionEvent"@
    ||| s == "ForkEvent"@
    ||| s == "GollumEvent"@
    ||| s == "IssueCommentEvent"@
    ||| s == "IssuesEvent"@
    ||| s == "MemberEvent"@
    ||| s == "PublicEvent"@
    ||| s == "PullRequestEvent"@
    ||| s == "PullRequestReviewEvent"@
    ||| s == "PullRequestReviewCommentEvent"@
    ||| s == "PushEvent"@
    ||| s == "ReleaseEvent"@
    ||| s == "WatchEvent"@
}

/// Classify a raw event-type string: the matching known kind where
/// there is one, and `Unknown` carrying the string verbatim otherwise.
/// Either way the kind's wire name is exactly the input.
pub fn classify_kind(s: &str) -> (k: EventKind)
    ensures
        spec_kind_label(k) == s@,
        k is Unknown <==> !spec_known_type(s@),
{
    if str_eq(s, "CommitCommentEvent") {
        EventKind::CommitComment
    } else if str_eq(s, "CreateEvent") {
        EventKind::Create
    } else if str_eq(s, "DeleteEvent") {
        EventKind::Delete
    } else if str_eq(s, "DiscussionEvent") {
        EventKind::Discussion
    } else if str_eq(s, "ForkEvent") {
        EventKind::Fork
    } else if str_eq(s, "GollumEvent") {
        EventKind::WikiEdit
    } else if str_eq(s, "IssueCommentEvent") {
        EventKind::IssueComment
    } else if str_eq(s, "IssuesEvent") {
        EventKind::Issues
    } else if str_eq(s, "MemberEvent") {
        EventKind::Member
    } else if str_eq(s, "PublicEvent") {
        EventKind::Public
    } else if str_eq(s, "PullRequestEvent") {
        EventKind::PullRequest
    } else if str_eq(s, "PullRequestReviewEvent") {
        EventKind::PullRequestReview
    } else if str_eq(s, "PullRequestReviewCommentEvent") {
        EventKind::PullRequestReviewComment
    } else if str_eq(s, "PushEvent") {
        EventKind::Push
    } else if str_eq(s, "ReleaseEvent") {
        EventKind::Release
    } else if str_eq(s, "WatchEvent") {
        EventKind::Watch
    } else {
        EventKind::Unknown(String::from_str(s))
    }
}

/// The wire name of an event kind, as an owned string.
pub fn kind_label(k: &EventKind) -> (s: String)
    ensures
        s@ == spec_kind_label(*k),
{
    match k {
        EventKind::CommitComment => String::from_str("CommitCommentEvent"),
        EventKind::Create => String::from_str("CreateEvent"),
        EventKind::Delete => String::from_str("DeleteEvent"),
        EventKind::Discussion => String::from_str("DiscussionEvent"),
        EventKind::Fork => String::from_str("ForkEvent"),
        EventKind::WikiEdit => String::from_str("GollumEvent"),
        EventKind::IssueComment => String::from_str("IssueCommentEvent"),
        EventKind::Issues => String::from_str("IssuesEvent"),
        EventKind::Member => String::from_str("MemberEvent"),
        EventKind::Public => String::from_str("PublicEvent"),
        EventKind::PullRequest => String::from_str("PullRequestEvent"),
        EventKind::PullRequestReview => String::from_str("PullRequestReviewEvent"),
        EventKind::PullRequestReviewComment => String::from_str("PullRequestReviewCommentEvent"),
        EventKind::Push => String::from_str("PushEvent"),
        EventKind::Release => String::from_str("ReleaseEvent"),
        EventKind::Watch => String::from_str("WatchEvent"),
        EventKind::Unknown(raw) => raw.clone(),
    }
}

} // verus!
