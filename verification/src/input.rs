//! What the keyboard, mouse and alert calls decide before they reach the
//! system: delays in milliseconds, the key that a string names and the
//! title of an alert.

use vstd::prelude::*;
use vstd::string::StrSliceExecFns;

verus! {

/// Milliseconds in a second.
pub const MILLIS_PER_SECOND: u64 = 1000;

/// Title of an alert that is given none.
pub const DEFAULT_ALERT_TITLE: &'static str = "AutoPy Alert";

/// A number of whole seconds in milliseconds, or the largest number of
/// milliseconds where that is less.
pub open spec fn spec_seconds_to_millis(seconds: u64) -> u64 {
    if seconds * MILLIS_PER_SECOND <= u64::MAX {
        (seconds * MILLIS_PER_SECOND) as u64
    } else {
        u64::MAX
    }
}

/// The delay between modifiers and key of a toggle: the delay given, in
/// milliseconds, or none.
pub open spec fn spec_toggle_delay(modifier_delay: Option<u64>) -> u64 {
    match modifier_delay {
        Some(s) => spec_seconds_to_millis(s),
        None => 0,
    }
}

/// The two delays of a tap, in milliseconds: the delay between press and
/// release, which is none where none is given, and the delay between
/// modifiers and key, which is the first delay where none is given.
pub open spec fn spec_tap_delays(delay: Option<u64>, modifier_delay: Option<u64>) -> (u64, u64) {
    let delay_ms = spec_toggle_delay(delay);
    (
        delay_ms,
        match modifier_delay {
            Some(s) => spec_seconds_to_millis(s),
            None => delay_ms,
        },
    )
}

/// A number of whole seconds in milliseconds; a delay too long to be
/// counted in milliseconds is the longest that can be.
pub fn seconds_to_millis(seconds: u64) -> (ms: u64)
    ensures
        ms == spec_seconds_to_millis(seconds),
{
    if seconds > u64::MAX / MILLIS_PER_SECOND {
        u64::MAX
    } else {
        seconds * MILLIS_PER_SECOND
    }
}

/// The delay between modifiers and key of a toggle, in milliseconds.
pub fn toggle_delay(modifier_delay: Option<u64>) -> (ms: u64)
    ensures
        ms == spec_toggle_delay(modifier_delay),
{
    match modifier_delay {
        Some(s) => seconds_to_millis(s),
        None => 0,
    }
}

/// The two delays of a tap, in milliseconds: between press and release, and
/// between modifiers and key.
pub fn tap_delays(delay: Option<u64>, modifier_delay: Option<u64>) -> (ms: (u64, u64))
    ensures
        ms == spec_tap_delays(delay, modifier_delay),
{
    let delay_ms = toggle_delay(delay);
    let modifier_delay_ms = match modifier_delay {
        Some(s) => seconds_to_millis(s),
        None => delay_ms,
    };
    (delay_ms, modifier_delay_ms)
}

/// The character that a string names as a key: its first one. The empty
/// string names none.
pub fn key_character(string: &str) -> (c: Option<char>)
    ensures
        string@.len() == 0 ==> c is None,
        string@.len() > 0 ==> c == Some(string@[0]),
{
    if string.unicode_len() == 0 {
        None
    } else {
        Some(string.get_char(0))
    }
}

/// The title under which an alert is shown.
pub fn alert_title<'a>(title: Option<&'a str>) -> (shown: &'a str)
    ensures
        shown@ == (match title {
            Some(t) => t@,
            None => DEFAULT_ALERT_TITLE@,
        }),
{
    match title {
        Some(t) => t,
        None => DEFAULT_ALERT_TITLE,
    }
}

} // verus!
