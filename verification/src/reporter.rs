//! The reporter: breaks a duration in seconds into the fixed unit ladder
//! (years, days, hours, minutes, seconds) and renders one line of text,
//! cutting the ladder off at the highest non-zero unit.

use vstd::prelude::*;
use vstd::string::StringExecFns;
use crate::decimal::append_decimal;
use crate::decimal::spec_digits;

verus! {

/// Seconds in a minute.
pub const SECONDS_IN_MINUTE: u64 = 60;

/// Seconds in an hour.
pub const SECONDS_IN_HOUR: u64 = 3_600;

/// Seconds in a day.
pub const SECONDS_IN_DAY: u64 = 86_400;

/// Seconds in a (365-day) year.
pub const SECONDS_IN_YEAR: u64 = 31_536_000;

/// "S seconds" for a remainder of S seconds.
pub open spec fn spec_seconds_tail(r: nat) -> Seq<char> {
    spec_digits(r) + " seconds"@
}

/// "M minutes, S seconds" for a remainder of `r` seconds.
pub open spec fn spec_minutes_tail(r: nat) -> Seq<char> {
    spec_digits(r / (SECONDS_IN_MINUTE as nat)) + " minutes, "@ + spec_seconds_tail(
        r % (SECONDS_IN_MINUTE as nat),
    )
}

/// "H hours, M minutes, S seconds" for a remainder of `r` seconds.
pub open spec fn spec_hours_tail(r: nat) -> Seq<char> {
    spec_digits(r / (SECONDS_IN_HOUR as nat)) + " hours, "@ + spec_minutes_tail(
        r % (SECONDS_IN_HOUR as nat),
    )
}

/// "D days, H hours, M minutes, S seconds" for a remainder of `r` seconds.
pub open spec fn spec_days_tail(r: nat) -> Seq<char> {
    spec_digits(r / (SECONDS_IN_DAY as nat)) + " days, "@ + spec_hours_tail(
        r % (SECONDS_IN_DAY as nat),
    )
}

/// The full line for a duration of `total` seconds: the display granularity
/// is chosen by the highest unit with a non-zero count (each threshold is a
/// `>=` comparison), and each tier's remainder cascades into the next
/// smaller unit by integer division and modulo.
pub open spec fn spec_format_duration(total: nat) -> Seq<char> {
    if total >= SECONDS_IN_YEAR {
        spec_digits(total / (SECONDS_IN_YEAR as nat)) + " years, "@ + spec_days_tail(
            total % (SECONDS_IN_YEAR as nat),
        )
    } else if total >= SECONDS_IN_DAY {
        spec_days_tail(total)
    } else if total >= SECONDS_IN_HOUR {
        spec_hours_tail(total)
    } else if total >= SECONDS_IN_MINUTE {
        spec_minutes_tail(total)
    } else {
        spec_seconds_tail(total)
    }
}

fn append_seconds_tail(text: &mut String, r: u64)
    ensures
        final(text)@ == old(text)@ + spec_seconds_tail(r as nat),
{
    append_decimal(text, r);
    text.append(" seconds");
    proof {
        assert(text@ =~= old(text)@ + spec_seconds_tail(r as nat));
    }
}

fn append_minutes_tail(text: &mut String, r: u64)
    ensures
        final(text)@ == old(text)@ + spec_minutes_tail(r as nat),
{
    append_decimal(text, r / SECONDS_IN_MINUTE);
    text.append(" minutes, ");
    append_seconds_tail(text, r % SECONDS_IN_MINUTE);
    proof {
        assert(text@ =~= old(text)@ + spec_minutes_tail(r as nat));
    }
}

fn append_hours_tail(text: &mut String, r: u64)
    ensures
        final(text)@ == old(text)@ + spec_hours_tail(r as nat),
{
    append_decimal(text, r / SECONDS_IN_HOUR);
    text.append(" hours, ");
    append_minutes_tail(text, r % SECONDS_IN_HOUR);
    proof {
        assert(text@ =~= old(text)@ + spec_hours_tail(r as nat));
    }
}

fn append_days_tail(text: &mut String, r: u64)
    ensures
        final(text)@ == old(text)@ + spec_days_tail(r as nat),
{
    append_decimal(text, r / SECONDS_IN_DAY);
    text.append(" days, ");
    append_hours_tail(text, r % SECONDS_IN_DAY);
    proof {
        assert(text@ =~= old(text)@ + spec_days_tail(r as nat));
    }
}

/// The human-readable breakdown of `total_seconds`, exactly
/// `spec_format_duration(total_seconds)`: a pure function of its input,
/// so identical inputs always produce identical text.
pub fn format_duration(total_seconds: u64) -> (text: String)
    ensures
        text@ == spec_format_duration(total_seconds as nat),
{
    let mut text = String::new();
    if total_seconds >= SECONDS_IN_YEAR {
        append_decimal(&mut text, total_seconds / SECONDS_IN_YEAR);
        text.append(" years, ");
        append_days_tail(&mut text, total_seconds % SECONDS_IN_YEAR);
    } else if total_seconds >= SECONDS_IN_DAY {
        append_days_tail(&mut text, total_seconds);
    } else if total_seconds >= SECONDS_IN_HOUR {
        append_hours_tail(&mut text, total_seconds);
    } else if total_seconds >= SECONDS_IN_MINUTE {
        append_minutes_tail(&mut text, total_seconds);
    } else {
        append_seconds_tail(&mut text, total_seconds);
    }
    proof {
        assert(text@ =~= spec_format_duration(total_seconds as nat));
    }
    text
}

/// The formatting is deterministic: equal second counts give equal text.
pub proof fn lemma_format_duration_deterministic(a: nat, b: nat)
    requires
        a == b,
    ensures
        spec_format_duration(a) == spec_format_duration(b),
{
}

} // verus!
