//! The renderer: each event becomes at most one summary line,
//! dispatched on its kind, in event order.

use vstd::prelude::*;
use crate::event::{Event, EventKind, CompareResult, kind_label, spec_kind_label};
use crate::fetch::{FetchError, spec_commit_count, spec_count_or_zero, spec_is_success};
use crate::text::{push_dec, spec_dec};
use vstd::string::StringExecFns;

verus! {

/// The action text a generic line ends with: the payload's action
/// where it is present, and nothing otherwise.
pub open spec fn spec_action_or_empty(a: Option<String>) -> Seq<char> {
    match a {
        Some(s) => s@,
        None => Seq::empty(),
    }
}

/// The summary line for one event, given the commit count its
/// enrichment contributed (zero when none was fetched): exactly one
/// line for every create, delete, fork, watch and push event, one for
/// a comment or action event whose relevant field is present and none
/// otherwise, and a generic line for every other kind, the unknown
/// ones included.
pub open spec fn spec_render(e: Event, count: nat) -> Option<Seq<char>> {
    match e.kind {
        EventKind::Create => Some("Created "@ + e.repo.name@),
        EventKind::Delete => Some("Deleted "@ + e.repo.name@),
        EventKind::Fork => Some("Forked "@ + e.repo.name@),
        EventKind::Watch => Some("Starred "@ + e.repo.name@),
        EventKind::Push => if count > 0 {
            Some("Pushed "@ + spec_dec(count) + " commit(s) to "@ + e.repo.name@)
        } else {
            Some("Pushed to "@ + e.repo.name@)
        },
        EventKind::IssueComment => match e.payload.issue {
            Some(issue) => Some("Commented on "@ + issue.url@),
            None => None,
        },
        EventKind::Issues => match e.payload.action {
            Some(a) => Some(a@ + " issue on "@ + e.repo.name@),
            None => None,
        },
        EventKind::PullRequest => match e.payload.action {
            Some(a) => Some(a@ + " pull request on "@ + e.repo.name@),
            None => None,
        },
        EventKind::CommitComment => match e.payload.action {
            Some(a) => Some(a@ + " "@ + e.repo.name@),
            None => None,
        },
        _ => Some(
            "["@ + spec_kind_label(e.kind) + "] on "@ + e.repo.name@ + " at "@ + e.created_at@
                + " "@ + spec_action_or_empty(e.payload.action),
        ),
    }
}

/// Render one event to its summary line, given the commit count its
/// enrichment contributed; `None` is an event that produces no output.
pub fn render_event(e: &Event, count: usize) -> (line: Option<String>)
    ensures
        line is Some <==> spec_render(*e, count as nat) is Some,
        line matches Some(l) ==> (spec_render(*e, count as nat) matches Some(s) && l@ == s),
{
    match &e.kind {
        EventKind::Create => {
            let mut m = String::from_str("Created ");
            m.append(e.repo.name.as_str());
            Some(m)
        },
        EventKind::Delete => {
            let mut m = String::from_str("Deleted ");
            m.append(e.repo.name.as_str());
            Some(m)
        },
        EventKind::Fork => {
            let mut m = String::from_str("Forked ");
            m.append(e.repo.name.as_str());
            Some(m)
        },
        EventKind::Watch => {
            let mut m = String::from_str("Starred ");
            m.append(e.repo.name.as_str());
            Some(m)
        },
        EventKind::Push => {
            if count > 0 {
                let mut m = String::from_str("Pushed ");
                push_dec(&mut m, count as u64);
                m.append(" commit(s) to ");
                m.append(e.repo.name.as_str());
                Some(m)
            } else {
                let mut m = String::from_str("Pushed to ");
                m.append(e.repo.name.as_str());
                Some(m)
            }
        },
        EventKind::IssueComment => {
            match &e.payload.issue {
                Some(issue) => {
                    let mut m = String::from_str("Commented on ");
                    m.append(issue.url.as_str());
                    Some(m)
                },
                None => None,
            }
        },
        EventKind::Issues => {
            match &e.payload.action {
                Some(a) => {
                    let mut m = a.clone();
                    m.append(" issue on ");
                    m.append(e.repo.name.as_str());
                    Some(m)
                },
                None => None,
            }
        },
        EventKind::PullRequest => {
            match &e.payload.action {
                Some(a) => {
                    let mut m = a.clone();
                    m.append(" pull request on ");
                    m.append(e.repo.name.as_str());
                    Some(m)
                },
                None => None,
            }
        },
        EventKind::CommitComment => {
            match &e.payload.action {
                Some(a) => {
                    let mut m = a.clone();
                    m.append(" ");
                    m.append(e.repo.name.as_str());
                    Some(m)
                },
                None => None,
            }
        },
        _ => {
            let mut m = String::from_str("[");
            let label = kind_label(&e.kind);
            m.append(label.as_str());
            m.append("] on ");
            m.append(e.repo.name.as_str());
            m.append(" at ");
            m.append(e.created_at.as_str());
            m.append(" ");
            match &e.payload.action {
                Some(a) => {
                    m.append(a.as_str());
                },
                None => {
                    proof {
                        assert(m@ + Seq::<char>::empty() =~= m@);
                    }
                },
            }
            Some(m)
        },
    }
}

/// The compare query a push event with both revision ids calls for:
/// the repository slug and the two revisions, oldest first.
pub fn enrichment_request(e: &Event) -> (r: Option<(String, String, String)>)
    ensures
        r is Some <==> (e.kind is Push && e.payload.before is Some && e.payload.head is Some),
        r matches Some(q) ==> (e.payload.before matches Some(b) && e.payload.head matches Some(h)
            && q.0@ == e.repo.name@ && q.1@ == b@ && q.2@ == h@),
{
    match (&e.kind, &e.payload.before, &e.payload.head) {
        (EventKind::Push, Some(before), Some(head)) => Some(
            (e.repo.name.clone(), before.clone(), head.clone()),
        ),
        _ => None,
    }
}

/// The lines a whole feed renders to: one entry per event that
/// produces output, in event order.
pub open spec fn spec_render_all(es: Seq<Event>, cs: Seq<usize>) -> Seq<Seq<char>>
    recommends
        es.len() == cs.len(),
    decreases es.len(),
{
    if es.len() == 0 {
        Seq::empty()
    } else {
        spec_render_all(es.drop_last(), cs.drop_last()) + (match spec_render(
            es.last(),
            cs.last() as nat,
        ) {
            Some(l) => seq![l],
            None => Seq::<Seq<char>>::empty(),
        })
    }
}

/// Render a whole feed, one commit count per event, in event order.
pub fn render_events(events: &Vec<Event>, counts: &Vec<usize>) -> (lines: Vec<String>)
    requires
        counts@.len() == events@.len(),
    ensures
        lines@.map_values(|l: String| l@) == spec_render_all(events@, counts@),
{
    let mut lines: Vec<String> = Vec::new();
    let mut i: usize = 0;
    while i < events.len()
        invariant
            0 <= i <= events@.len(),
            counts@.len() == events@.len(),
            lines@.map_values(|l: String| l@) == spec_render_all(
                events@.take(i as int),
                counts@.take(i as int),
            ),
        decreases events@.len() - i,
    {
        let line = render_event(&events[i], counts[i]);
        proof {
            assert(events@.take(i as int + 1).drop_last() =~= events@.take(i as int));
            assert(counts@.take(i as int + 1).drop_last() =~= counts@.take(i as int));
            assert(events@.take(i as int + 1).last() == events@[i as int]);
            assert(counts@.take(i as int + 1).last() == counts@[i as int]);
        }
        match line {
            Some(l) => {
                lines.push(l);
                proof {
                    assert(lines@.map_values(|l: String| l@) =~= spec_render_all(
                        events@.take(i as int + 1),
                        counts@.take(i as int + 1),
                    ));
                }
            },
            None => {
                proof {
                    assert(lines@.map_values(|l: String| l@) =~= spec_render_all(
                        events@.take(i as int + 1),
                        counts@.take(i as int + 1),
                    ));
                }
            },
        }
        i = i + 1;
    }
    proof {
        assert(events@.take(i as int) =~= events@);
        assert(counts@.take(i as int) =~= counts@);
    }
    lines
}

/// Law: rendering yields at most one line per event, so a feed of `n`
/// events renders to at most `n` lines, and (by the renderer's
/// contract) in the events' own order.
pub proof fn lemma_render_line_count(es: Seq<Event>, cs: Seq<usize>)
    ensures
        spec_render_all(es, cs).len() <= es.len(),
    decreases es.len(),
{
    if es.len() > 0 {
        lemma_render_line_count(es.drop_last(), cs.drop_last());
    }
}

/// Law: a failed enrichment still renders a push line. Any
/// non-success compare status makes the enrichment an error, the
/// error's count is zero, and a push event with count zero renders as
/// `Pushed to <repo>` — the run is never aborted for it.
pub proof fn lemma_enrichment_failure_still_renders(
    e: Event,
    status: u16,
    decoded: Result<CompareResult, String>,
)
    requires
        e.kind is Push,
        !spec_is_success(status),
    ensures
        spec_commit_count(status, decoded) is Err,
        spec_render(e, spec_count_or_zero(spec_commit_count(status, decoded)) as nat) == Some(
            "Pushed to "@ + e.repo.name@,
        ),
{
}

} // verus!
