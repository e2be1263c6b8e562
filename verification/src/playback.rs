//! Playback position display.
use vstd::prelude::*;

use crate::text::{push_char, push_two_digits, two_digits};

verus! {

/// A whole number of seconds as "MM:SS", or "HH:MM:SS" from one hour on.
pub open spec fn duration_text(total: nat) -> Seq<char> {
    let hours = total / 3600;
    let mins = (total % 3600) / 60;
    let secs = total % 60;
    if hours > 0 {
        two_digits(hours) + seq![':'] + two_digits(mins) + seq![':'] + two_digits(secs)
    } else {
        two_digits(mins) + seq![':'] + two_digits(secs)
    }
}

/// Format a duration of whole seconds in MM:SS or HH:MM:SS format.
pub fn format_duration(total_secs: u64) -> (r: String)
    ensures
        r@ == duration_text(total_secs as nat),
{
    let hours = total_secs / 3600;
    let mins = (total_secs % 3600) / 60;
    let secs = total_secs % 60;
    let mut s = String::new();
    if hours > 0 {
        push_two_digits(&mut s, hours);
        push_char(&mut s, ':');
    }
    push_two_digits(&mut s, mins);
    push_char(&mut s, ':');
    push_two_digits(&mut s, secs);
    proof {
        if hours > 0 {
            assert(s@ =~= duration_text(total_secs as nat));
        } else {
            assert(s@ =~= duration_text(total_secs as nat));
        }
    }
    s
}

} // verus!
