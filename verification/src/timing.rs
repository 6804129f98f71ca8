//! Splitting an elapsed duration into the parts the final report prints.

use vstd::prelude::*;

verus! {

/// The pieces of an elapsed duration, ready for display: whole minutes,
/// leftover seconds, and the sub-second milliseconds. `long_form` says
/// whether the minutes field should be shown at all.
pub struct DurationParts {
    pub minutes: u64,
    pub seconds: u64,
    pub millis: u32,
    pub long_form: bool,
}

/// Split a duration, given as whole seconds plus sub-second milliseconds,
/// into minutes, seconds and milliseconds. The minutes field is printed
/// only when it is non-zero, which `long_form` records.
pub fn duration_parts(total_secs: u64, subsec_millis: u32) -> (r: DurationParts)
    ensures
        r.minutes == total_secs / 60,
        r.seconds == total_secs % 60,
        r.millis == subsec_millis,
        r.long_form <==> total_secs / 60 > 0,
{
    let minutes: u64 = total_secs / 60;
    let seconds: u64 = total_secs % 60;
    DurationParts { minutes, seconds, millis: subsec_millis, long_form: minutes > 0 }
}

} // verus!
