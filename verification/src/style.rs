//! The one piece of presentation logic that is pure computation: how wide a
//! progress bar may be, given the terminal width and the message printed
//! beside it.

use vstd::prelude::*;

verus! {

/// The columns taken beside the bar itself: a twelve-column action label, one
/// space, the details string, and the surrounding brackets, spaces and
/// percentage.
pub open spec fn spec_progress_chrome(details_len: int) -> int {
    details_len + 24
}

pub open spec fn spec_progress_bar_width(display_width: int, details_len: int) -> int {
    let available = display_width - spec_progress_chrome(details_len);
    if available <= 0 {
        0
    } else if available < 40 {
        available
    } else {
        40
    }
}

/// How many columns the bar of a progress display may occupy: whatever the
/// terminal leaves next to the message, capped at forty columns; a terminal
/// narrower than the message leaves no room at all.
pub fn progress_bar_width(display_width: usize, details_len: usize) -> (r: usize)
    ensures
        r as int == spec_progress_bar_width(display_width as int, details_len as int),
{
    if details_len >= usize::MAX - 24 {
        return 0;
    }
    let chrome = details_len + 24;
    if display_width <= chrome {
        0
    } else if display_width - chrome < 40 {
        display_width - chrome
    } else {
        40
    }
}

} // verus!
