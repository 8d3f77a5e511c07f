//! Human friendly rendering of durations.

use vstd::prelude::*;
use crate::text::{decimal, push_decimal};
use core::time::Duration;

verus! {

pub const SECONDS_IN_A_MINUTE: u64 = 60;
pub const SECONDS_IN_A_HOUR: u64 = SECONDS_IN_A_MINUTE * 60;
pub const SECONDS_IN_A_DAY: u64 = SECONDS_IN_A_HOUR * 24;
pub const SECONDS_IN_A_WEEK: u64 = SECONDS_IN_A_DAY * 7;
pub const SECONDS_IN_A_MONTH: u64 = SECONDS_IN_A_DAY * 30;
pub const SECONDS_IN_A_YEAR: u64 = SECONDS_IN_A_DAY * 365;

/// `one` when `n` is one, else `n` in decimal, a space and `unit`.
pub open spec fn count_phrase(n: nat, one: Seq<char>, unit: Seq<char>) -> Seq<char> {
    if n == 1 {
        one
    } else {
        decimal(n) + seq![' '] + unit
    }
}

/// The text for a span of `secs` whole seconds: the largest unit (year, month,
/// week, day, hour, minute, second) of which the span holds at least one,
/// with the count of whole such units.
pub open spec fn humanized(secs: nat) -> Seq<char> {
    if secs / (SECONDS_IN_A_YEAR as nat) > 0 {
        count_phrase(secs / (SECONDS_IN_A_YEAR as nat), "a year"@, "years"@)
    } else if secs / (SECONDS_IN_A_MONTH as nat) > 0 {
        count_phrase(secs / (SECONDS_IN_A_MONTH as nat), "a month"@, "months"@)
    } else if secs / (SECONDS_IN_A_WEEK as nat) > 0 {
        count_phrase(secs / (SECONDS_IN_A_WEEK as nat), "a week"@, "weeks"@)
    } else if secs / (SECONDS_IN_A_DAY as nat) > 0 {
        count_phrase(secs / (SECONDS_IN_A_DAY as nat), "a day"@, "days"@)
    } else if secs / (SECONDS_IN_A_HOUR as nat) > 0 {
        count_phrase(secs / (SECONDS_IN_A_HOUR as nat), "an hour"@, "hours"@)
    } else if secs / (SECONDS_IN_A_MINUTE as nat) > 0 {
        count_phrase(secs / (SECONDS_IN_A_MINUTE as nat), "a minute"@, "minutes"@)
    } else if secs > 0 {
        count_phrase(secs, "a second"@, "seconds"@)
    } else {
        "less than a second"@
    }
}

fn phrase(n: u64, one: &str, unit: &str) -> (r: String)
    ensures
        r@ == count_phrase(n as nat, one@, unit@),
{
    if n == 1 {
        String::from_str(one)
    } else {
        proof { reveal_strlit(" "); }
        let mut s = String::new();
        push_decimal(&mut s, n);
        s.append(" ");
        s.append(unit);
        assert(s@ =~= count_phrase(n as nat, one@, unit@));
        s
    }
}

/// The human friendly text for a span of `secs` whole seconds.
pub fn humanize_seconds(secs: u64) -> (r: String)
    ensures
        r@ == humanized(secs as nat),
{
    let years = secs / SECONDS_IN_A_YEAR;
    if years > 0 {
        return phrase(years, "a year", "years");
    }
    let months = secs / SECONDS_IN_A_MONTH;
    if months > 0 {
        return phrase(months, "a month", "months");
    }
    let weeks = secs / SECONDS_IN_A_WEEK;
    if weeks > 0 {
        return phrase(weeks, "a week", "weeks");
    }
    let days = secs / SECONDS_IN_A_DAY;
    if days > 0 {
        return phrase(days, "a day", "days");
    }
    let hours = secs / SECONDS_IN_A_HOUR;
    if hours > 0 {
        return phrase(hours, "an hour", "hours");
    }
    let minutes = secs / SECONDS_IN_A_MINUTE;
    if minutes > 0 {
        return phrase(minutes, "a minute", "minutes");
    }
    if secs > 0 {
        return phrase(secs, "a second", "seconds");
    }
    String::from_str("less than a second")
}

/// Formats a value as a human friendly `String`.
pub trait Humanize {
    /// Formats the value as a human friendly `String`.
    fn humanize(&self) -> (r: String)
        ensures
            exists|secs: u64| r@ == humanized(secs as nat),
    ;
}

impl Humanize for Duration {
    /// The text for the whole seconds of the duration.
    fn humanize(&self) -> (r: String) {
        humanize_seconds(whole_seconds(self))
    }
}

/// Relies on `Duration::as_secs`: the whole seconds of a duration.
#[verifier::external_body]
pub(crate) fn whole_seconds(d: &Duration) -> u64 {
    d.as_secs()
}

} // verus!
