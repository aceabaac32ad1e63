//! What is written on the closing screens.

use vstd::prelude::*;
use std::time::Duration;
use crate::text::{push_two_digits, two_digits};
use crate::time::duration_secs;

verus! {

/// A time as minutes and seconds, each with at least two digits and a colon
/// in between. The minutes are not wrapped into hours.
pub open spec fn clock_text(secs: nat) -> Seq<char> {
    two_digits(secs / 60) + seq![':'] + two_digits(secs % 60)
}

pub fn time_to_text(time: Duration) -> (text: String)
    ensures
        text@ == clock_text(duration_secs(time)),
{
    let minutes = time.as_secs() / 60;
    let secs = time.as_secs() % 60;
    let mut text = String::new();
    push_two_digits(&mut text, minutes as u128);
    text.push(':');
    push_two_digits(&mut text, secs as u128);
    text
}

/// The line of a closing screen that tells how long the level took and what
/// the best time for it is.
pub open spec fn completion_line(secs: nat, best_secs: nat) -> Seq<char> {
    "Time: "@ + clock_text(secs) + " (Best:"@ + clock_text(best_secs) + ")"@
}

pub fn completion_text(time: Duration, best_time: Duration) -> (text: String)
    ensures
        text@ == completion_line(duration_secs(time), duration_secs(best_time)),
{
    let mut text = String::new();
    text.push_str("Time: ");
    text.push_str(time_to_text(time).as_str());
    text.push_str(" (Best:");
    text.push_str(time_to_text(best_time).as_str());
    text.push_str(")");
    text
}

} // verus!
