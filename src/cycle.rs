//! The decisions of one poll cycle: what the fetched batch becomes, whether the
//! buffer is written, and how the next cycle is armed.

use vstd::prelude::*;

use crate::record::{batch_normalized, normalize_batch, ChatMessage, RawMessage};

verus! {

/// Events that drive the overlay.
#[derive(Clone, Copy, Debug, PartialEq, Eq, Structural)]
pub enum AppMessage {
    /// One scheduled poll cycle.
    Tick,
}

/// Pause, in milliseconds, between the end of one cycle and the next tick.
pub const POLL_DELAY_MS: u64 = 500;

/// What to do once a fetch has returned.
pub struct CyclePlan {
    /// Records to append to the buffer under its write lock; `None` when the
    /// buffer is left alone this cycle.
    pub batch: Option<Vec<ChatMessage>>,
    /// Pause before the cycle completes.
    pub delay_ms: u64,
    /// The event that completes the cycle and arms the next one.
    pub next: AppMessage,
}

/// Plans the rest of a cycle from the fetch result (`None` for a failed
/// fetch). A failed fetch or an empty batch leaves the buffer alone; a
/// non-empty batch is normalized in order. Either way the cycle waits
/// `POLL_DELAY_MS` and re-arms itself with a tick.
pub fn plan_cycle(fetched: Option<Vec<RawMessage>>) -> (r: CyclePlan)
    ensures
        r.delay_ms == POLL_DELAY_MS,
        r.next == AppMessage::Tick,
        match fetched {
            None => r.batch is None,
            Some(raw) => if raw@.len() == 0 {
                r.batch is None
            } else {
                &&& r.batch is Some
                &&& batch_normalized(raw@, r.batch->Some_0@)
            },
        },
{
    let batch = match fetched {
        None => None,
        Some(raw) => {
            if raw.len() == 0 {
                None
            } else {
                Some(normalize_batch(&raw))
            }
        },
    };
    CyclePlan { batch, delay_ms: POLL_DELAY_MS, next: AppMessage::Tick }
}

} // verus!
