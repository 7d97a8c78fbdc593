//! What the event loop decides between frames.

use vstd::prelude::*;

verus! {

/// Nanoseconds in the fractional part of the longest delay that can be
/// asked for.
pub const MAX_DELAY_NANOS: u32 = 999_999_999;

/// How the event loop waits for the next frame.
#[derive(Clone, Copy, Debug, PartialEq, Eq, Structural)]
pub enum Repaint {
    /// Run the next frame at once.
    Poll,
    /// Sleep until an event arrives.
    Wait,
    /// Sleep until an event arrives, but no longer than this.
    WaitFor { secs: u64, nanos: u32 },
}

/// How to wait, given after how long the interface asked to be painted
/// again: at once for no delay, indefinitely for the longest delay there
/// is, and for the delay itself otherwise.
pub open spec fn repaint_for(secs: u64, nanos: u32) -> Repaint {
    if secs == 0 && nanos == 0 {
        Repaint::Poll
    } else if secs == u64::MAX && nanos == MAX_DELAY_NANOS {
        Repaint::Wait
    } else {
        Repaint::WaitFor { secs, nanos }
    }
}

/// How to wait for the next frame.
pub fn repaint_after(secs: u64, nanos: u32) -> (r: Repaint)
    ensures
        r == repaint_for(secs, nanos),
{
    if secs == 0 && nanos == 0 {
        Repaint::Poll
    } else if secs == u64::MAX && nanos == MAX_DELAY_NANOS {
        Repaint::Wait
    } else {
        Repaint::WaitFor { secs, nanos }
    }
}

} // verus!
