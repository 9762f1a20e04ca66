//! Waiting for a reply. The mount buffers its answer before sending it, so
//! after a write the caller polls the line until bytes are available, within
//! a deadline.

use vstd::prelude::*;

verus! {

/// Pause between two looks at the line, in milliseconds.
pub const POLL_INTERVAL_MS: u64 = 10;

/// Longest wait for a reply: the hand controller's documented worst case.
pub const REPLY_DEADLINE_MS: u64 = 3500;

/// What to do after looking at the line.
#[derive(Debug, Clone, Copy, PartialEq, Eq, Structural)]
pub enum Poll {
    /// Bytes are there: read once.
    Read,
    /// Nothing yet: wait this many milliseconds and look again.
    Wait(u64),
    /// The deadline has passed: the exchange timed out.
    GiveUp,
}

/// Decides the next move given the bytes available and the time waited so
/// far. Waits never carry the total past the deadline, so a caller that adds
/// up its waits gives up after at most `REPLY_DEADLINE_MS`.
pub fn next_poll(available: u32, waited_ms: u64) -> (r: Poll)
    ensures
        available > 0 ==> r == Poll::Read,
        available == 0 && waited_ms >= REPLY_DEADLINE_MS ==> r == Poll::GiveUp,
        available == 0 && waited_ms < REPLY_DEADLINE_MS ==> r == Poll::Wait(
            if REPLY_DEADLINE_MS - waited_ms < POLL_INTERVAL_MS {
                (REPLY_DEADLINE_MS - waited_ms) as u64
            } else {
                POLL_INTERVAL_MS
            },
        ),
        r matches Poll::Wait(d) ==> 0 < d && waited_ms + d <= REPLY_DEADLINE_MS,
{
    if available > 0 {
        Poll::Read
    } else if waited_ms >= REPLY_DEADLINE_MS {
        Poll::GiveUp
    } else if REPLY_DEADLINE_MS - waited_ms < POLL_INTERVAL_MS {
        Poll::Wait(REPLY_DEADLINE_MS - waited_ms)
    } else {
        Poll::Wait(POLL_INTERVAL_MS)
    }
}

} // verus!
