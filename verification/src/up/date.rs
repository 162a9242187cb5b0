//! Ages, as they are shown in listings.

use vstd::prelude::*;
use vstd::string::*;
use crate::text::{decimal, join2, join3, u64_to_string};

verus! {

/// `n` of a unit, in words: `1 day ago`, `3 days ago`.
pub open spec fn ago(n: nat, unit: Seq<char>) -> Seq<char> {
    decimal(n) + " "@ + unit + (if n == 1 {
        " ago"@
    } else {
        "s ago"@
    })
}

/// The age of something created `seconds` ago, in its largest unit that
/// is not zero: years of 365 days, months of 30 days, weeks, days, hours,
/// minutes, seconds.  What was created in the future is so many seconds
/// old, with a minus sign.
pub open spec fn age_text(seconds: int) -> Seq<char> {
    if seconds < 0 {
        "-"@ + decimal((-seconds) as nat) + " seconds ago"@
    } else {
        let days = seconds / 86400;
        if days / 365 > 0 {
            ago((days / 365) as nat, "year"@)
        } else if days / 30 > 0 {
            ago((days / 30) as nat, "month"@)
        } else if days / 7 > 0 {
            ago((days / 7) as nat, "week"@)
        } else if days > 0 {
            ago(days as nat, "day"@)
        } else if seconds / 3600 > 0 {
            ago((seconds / 3600) as nat, "hour"@)
        } else if seconds / 60 > 0 {
            ago((seconds / 60) as nat, "minute"@)
        } else {
            ago(seconds as nat, "second"@)
        }
    }
}

fn say(n: u64, unit: &str) -> (r: String)
    ensures
        r@ == ago(n as nat, unit@),
{
    let mut r = join3(u64_to_string(n).as_str(), " ", unit);
    if n == 1 {
        r.append(" ago");
    } else {
        r.append("s ago");
    }
    r
}

/// How long ago `created` was, as of `now`; both in seconds since the
/// epoch.
pub fn format_duration_ago(created: i64, now: i64) -> (r: String)
    ensures
        r@ == age_text(now - created),
{
    if now < created {
        let ahead: u64 = (created as i128 - now as i128) as u64;
        return join3("-", u64_to_string(ahead).as_str(), " seconds ago");
    }
    let seconds: u64 = (now as i128 - created as i128) as u64;
    let days = seconds / 86400;
    if days / 365 > 0 {
        say(days / 365, "year")
    } else if days / 30 > 0 {
        say(days / 30, "month")
    } else if days / 7 > 0 {
        say(days / 7, "week")
    } else if days > 0 {
        say(days, "day")
    } else if seconds / 3600 > 0 {
        say(seconds / 3600, "hour")
    } else if seconds / 60 > 0 {
        say(seconds / 60, "minute")
    } else {
        say(seconds, "second")
    }
}

} // verus!
