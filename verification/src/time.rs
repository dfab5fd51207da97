//! Rendering the rate-limit reset timestamp as a time of day.

use vstd::prelude::*;
use crate::text::{spec_digit, spec_parse_u64, parse_u64};
use vstd::string::StringExecFns;

verus! {

/// Two zero-padded decimal digits for a value below one hundred.
pub open spec fn spec_two_digits(n: int) -> Seq<char>
    recommends
        0 <= n < 100,
{
    seq![spec_digit(n / 10), spec_digit(n % 10)]
}

/// The zero-padded 24-hour UTC time of day, `HH:MM:SS`, of an epoch
/// second count.
pub open spec fn spec_hms(ts: int) -> Seq<char>
    recommends
        ts >= 0,
{
    spec_two_digits((ts / 3600) % 24) + seq![':'] + spec_two_digits((ts / 60) % 60) + seq![':']
        + spec_two_digits(ts % 60)
}

/// Every epoch second count up to this bound (far beyond year 250000,
/// yet short of the calendar's own limit) formats successfully.
pub const MAX_FORMATTED_EPOCH: u64 = 8_000_000_000_000;

/// Relies on `chrono::DateTime::from_timestamp` and the `%H:%M:%S`
/// formatter: a timestamp whose date is representable renders as the
/// zero-padded UTC time of day, one beyond the calendar's range yields
/// `None`, and every count up to `MAX_FORMATTED_EPOCH` is in range.
#[verifier::external_body]
fn format_epoch_hms(ts: u64) -> (r: Option<String>)
    requires
        ts <= 0x7fff_ffff_ffff_ffff,
    ensures
        r matches Some(s) ==> s@ == spec_hms(ts as int),
        ts <= MAX_FORMATTED_EPOCH ==> r is Some,
{
    match chrono::DateTime::from_timestamp(ts as i64, 0) {
        Some(dt) => Some(dt.format("%H:%M:%S").to_string()),
        None => None,
    }
}

/// The fallback text when no reset time can be computed.
pub open spec fn spec_unknown_time() -> Seq<char> {
    "unknown time"@
}

/// What a reset header names: the epoch second count of a present,
/// parsable header, and nothing otherwise.
pub open spec fn spec_header_epoch(h: Option<Seq<char>>) -> Option<u64> {
    match h {
        Some(s) => spec_parse_u64(s),
        None => None,
    }
}

fn unknown_time_string() -> (t: String)
    ensures
        t@ == spec_unknown_time(),
{
    String::from_str("unknown time")
}

/// The reset header rendered as a time of day: the UTC `HH:MM:SS` of
/// its epoch-second value where that is computable, and `unknown time`
/// where the header is missing, unparsable, or out of the calendar's
/// range.
pub fn reset_time_string(header: Option<&String>) -> (t: String)
    ensures
        match spec_header_epoch(match header {
            Some(h) => Some(h@),
            None => None,
        }) {
            Some(ts) => (ts <= MAX_FORMATTED_EPOCH ==> t@ == spec_hms(ts as int)) && (t@
                == spec_hms(ts as int) || t@ == spec_unknown_time()),
            None => t@ == spec_unknown_time(),
        },
{
    let ts_opt: Option<u64> = match header {
        Some(h) => parse_u64(h.as_str()),
        None => None,
    };
    match ts_opt {
        Some(ts) => {
            if ts <= 0x7fff_ffff_ffff_ffff {
                match format_epoch_hms(ts) {
                    Some(s) => s,
                    None => unknown_time_string(),
                }
            } else {
                unknown_time_string()
            }
        },
        None => unknown_time_string(),
    }
}

} // verus!
