//! The command-line surface: which mode a single optional positional
//! argument selects, and when it is rejected.

use vstd::prelude::*;
use vstd::string::StrSliceExecFns;

verus! {

/// How the countdown runs: one report, or a refresh every second.
#[derive(Clone, Copy, PartialEq, Eq, Structural, Debug)]
pub enum Mode {
    /// Report the remaining time once and stop.
    OneShot,
    /// Re-report the remaining time once per second until interrupted.
    Continuous,
}

/// The accepted synonyms for continuous mode: a short form and two
/// descriptive forms.
pub open spec fn is_continuous_keyword(s: Seq<char>) -> bool {
    s == "c"@ || s == "count"@ || s == "countdown"@
}

/// Character-for-character equality of two string slices.
fn str_equal(a: &str, b: &str) -> (r: bool)
    ensures
        r == (a@ == b@),
{
    let a_len = a.unicode_len();
    let b_len = b.unicode_len();
    if a_len != b_len {
        return false;
    }
    let mut i: usize = 0;
    while i < a_len
        invariant
            i <= a_len,
            a_len == a@.len(),
            a_len == b@.len(),
            forall|j: int| 0 <= j < i ==> a@[j] == b@[j],
        decreases a_len - i,
    {
        if a.get_char(i) != b.get_char(i) {
            return false;
        }
        i = i + 1;
    }
    proof {
        assert(a@ =~= b@);
    }
    true
}

/// The mode selected by the optional positional argument: no argument means
/// one report; one of the continuous-mode synonyms means the refreshing
/// countdown; anything else is rejected (`None`), and no mode runs.
pub fn parse_mode(arg: Option<&str>) -> (r: Option<Mode>)
    ensures
        match arg {
            None => r == Some(Mode::OneShot),
            Some(s) => if is_continuous_keyword(s@) {
                r == Some(Mode::Continuous)
            } else {
                r is None
            },
        },
{
    match arg {
        None => Some(Mode::OneShot),
        Some(s) => {
            if str_equal(s, "c") || str_equal(s, "count") || str_equal(s, "countdown") {
                Some(Mode::Continuous)
            } else {
                None
            }
        },
    }
}

} // verus!
