//! The fetch side: the error taxonomy, the request URLs, and the
//! mapping from an HTTP exchange's plain outcome (status, reset header,
//! decoded body) to events or an error.

use vstd::prelude::*;
use crate::event::{Event, CompareResult};
use crate::text::{spec_dec, u64_to_string};
use crate::time::{
    reset_time_string, spec_header_epoch, spec_hms, spec_unknown_time, MAX_FORMATTED_EPOCH,
};
use vstd::string::StringExecFns;

verus! {

/// Why a fetch failed. Every fetcher error is fatal to the run; only
/// the enrichment call's errors are discarded by its caller.
#[derive(Debug)]
pub enum FetchError {
    /// The username was empty; no request was made.
    InvalidInput,
    /// The request could not be sent; carries the transport cause.
    TransportError(String),
    /// The platform answered 403; carries the formatted reset time.
    RateLimited(String),
    /// Any other non-success status.
    HttpError { status: u16 },
    /// A success status whose body did not have the expected shape;
    /// carries the decoder's description.
    DecodeError(String),
}

/// The single error line reported for a failure.
pub open spec fn spec_message(e: FetchError) -> Seq<char> {
    match e {
        FetchError::InvalidInput => "Username cannot be empty"@,
        FetchError::TransportError(cause) => "Failed to send request: "@ + cause@,
        FetchError::RateLimited(time) => "Rate limit exceeded. Resets at "@ + time@,
        FetchError::HttpError { status } => "Failed to fetch github activity: HTTP "@ + spec_dec(
            status as nat,
        ),
        FetchError::DecodeError(cause) => "Failed to read response body: "@ + cause@,
    }
}

impl FetchError {
    /// The error's one-line description.
    pub fn message(&self) -> (m: String)
        ensures
            m@ == spec_message(*self),
    {
        match self {
            FetchError::InvalidInput => String::from_str("Username cannot be empty"),
            FetchError::TransportError(cause) => {
                let mut m = String::from_str("Failed to send request: ");
                m.append(cause.as_str());
                m
            },
            FetchError::RateLimited(time) => {
                let mut m = String::from_str("Rate limit exceeded. Resets at ");
                m.append(time.as_str());
                m
            },
            FetchError::HttpError { status } => {
                let mut m = String::from_str("Failed to fetch github activity: HTTP ");
                let digits = u64_to_string(*status as u64);
                m.append(digits.as_str());
                m
            },
            FetchError::DecodeError(cause) => {
                let mut m = String::from_str("Failed to read response body: ");
                m.append(cause.as_str());
                m
            },
        }
    }
}

/// Whether an HTTP status is a success (2xx) status.
pub open spec fn spec_is_success(status: u16) -> bool {
    200 <= status < 300
}

/// Whether an HTTP status is a success (2xx) status.
pub fn is_success_status(status: u16) -> (b: bool)
    ensures
        b == spec_is_success(status),
{
    200 <= status && status < 300
}

/// The events-endpoint URL for a username.
pub open spec fn spec_events_url(username: Seq<char>) -> Seq<char> {
    "https://api.github.com/users/"@ + username + "/events"@
}

/// Validate the username and build the events-endpoint URL. An empty
/// username is rejected here, before any request is made.
pub fn events_url(username: &str) -> (r: Result<String, FetchError>)
    ensures
        username@.len() == 0 ==> r == Result::<String, FetchError>::Err(FetchError::InvalidInput),
        username@.len() > 0 ==> (r matches Ok(u) && u@ == spec_events_url(username@)),
{
    if username.is_empty() {
        Err(FetchError::InvalidInput)
    } else {
        let mut u = String::from_str("https://api.github.com/users/");
        u.append(username);
        u.append("/events");
        Ok(u)
    }
}

/// The compare-endpoint URL for two revisions of a repository.
pub open spec fn spec_compare_url(repo: Seq<char>, before: Seq<char>, head: Seq<char>) -> Seq<
    char,
> {
    "https://api.github.com/repos/"@ + repo + "/compare/"@ + before + "..."@ + head
}

/// Build the compare-endpoint URL for two revisions of a repository.
pub fn compare_url(repo: &str, before: &str, head: &str) -> (u: String)
    ensures
        u@ == spec_compare_url(repo@, before@, head@),
{
    let mut u = String::from_str("https://api.github.com/repos/");
    u.append(repo);
    u.append("/compare/");
    u.append(before);
    u.append("...");
    u.append(head);
    u
}

/// Map the primary fetch's outcome to events or an error: 403 becomes
/// `RateLimited` with the reset header rendered as a time of day, any
/// other non-success status becomes `HttpError`, and a success status
/// yields the decoded events in their wire order, or `DecodeError`
/// where decoding failed.
pub fn fetch_outcome(
    status: u16,
    reset_header: Option<String>,
    decoded: Result<Vec<Event>, String>,
) -> (r: Result<Vec<Event>, FetchError>)
    ensures
        status == 403 ==> (r matches Err(e) && e matches FetchError::RateLimited(t) && (match
            spec_header_epoch(
            match reset_header {
                Some(h) => Some(h@),
                None => None,
            },
        ) {
            Some(ts) => (ts <= MAX_FORMATTED_EPOCH ==> t@ == spec_hms(ts as int)) && (t@
                == spec_hms(ts as int) || t@ == spec_unknown_time()),
            None => t@ == spec_unknown_time(),
        })),
        status != 403 && !spec_is_success(status) ==> r == Result::<Vec<Event>, FetchError>::Err(
            FetchError::HttpError { status },
        ),
        status != 403 && spec_is_success(status) ==> match decoded {
            Ok(events) => r matches Ok(es) && es == events,
            Err(cause) => r matches Err(e) && e matches FetchError::DecodeError(d) && d@
                == cause@,
        },
{
    if status == 403 {
        let t = match &reset_header {
            Some(h) => reset_time_string(Some(h)),
            None => reset_time_string(None),
        };
        Err(FetchError::RateLimited(t))
    } else if !is_success_status(status) {
        Err(FetchError::HttpError { status })
    } else {
        match decoded {
            Ok(events) => Ok(events),
            Err(cause) => Err(FetchError::DecodeError(cause)),
        }
    }
}

/// What the enrichment call yields from its exchange's plain outcome:
/// the commit count of a decoded success body, and an error for any
/// non-success status or undecodable body.
pub open spec fn spec_commit_count(status: u16, decoded: Result<CompareResult, String>) -> Result<
    usize,
    FetchError,
> {
    if !spec_is_success(status) {
        Err(FetchError::HttpError { status })
    } else {
        match decoded {
            Ok(c) => Ok(c.total_commits),
            Err(cause) => Err(FetchError::DecodeError(cause)),
        }
    }
}

/// Map the enrichment fetch's outcome to a commit count or an error.
pub fn commit_count_outcome(status: u16, decoded: Result<CompareResult, String>) -> (r: Result<
    usize,
    FetchError,
>)
    ensures
        r == spec_commit_count(status, decoded),
{
    if !is_success_status(status) {
        Err(FetchError::HttpError { status })
    } else {
        match decoded {
            Ok(c) => Ok(c.total_commits),
            Err(cause) => Err(FetchError::DecodeError(cause)),
        }
    }
}

/// The count an enrichment outcome contributes to rendering.
pub open spec fn spec_count_or_zero(r: Result<usize, FetchError>) -> usize {
    match r {
        Ok(n) => n,
        Err(_) => 0,
    }
}

/// The enrichment-failure policy: a count that could not be fetched
/// counts as zero, so the push line degrades instead of aborting the
/// run. Discarding the error here is intentional; it is never
/// surfaced.
pub fn count_or_zero(r: Result<usize, FetchError>) -> (c: usize)
    ensures
        c == spec_count_or_zero(r),
{
    match r {
        Ok(n) => n,
        Err(_) => 0,
    }
}

} // verus!
