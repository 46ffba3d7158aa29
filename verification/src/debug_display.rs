//! The optional debug overlay: a queue of recent engine events, shown one
//! at a time, each for a short freshness window.
//!
//! Time reaches this module as plain milliseconds; the embedding layer
//! reads the clock. `flip` holds the deadline at which the message on
//! display goes stale and the queue rotates.

use vstd::prelude::*;

use std::collections::VecDeque;

verus! {

/// How long one message stays on display, in milliseconds.
pub const DEBUG_DISPLAY_FRESH_MS: u64 = 100;

/// The deadline at which a message shown now goes stale.
pub fn debug_display_reset(now_ms: u64) -> (r: Option<u64>)
    requires
        now_ms + DEBUG_DISPLAY_FRESH_MS <= u64::MAX,
    ensures
        r == Some((now_ms + DEBUG_DISPLAY_FRESH_MS) as u64),
{
    Some(now_ms + DEBUG_DISPLAY_FRESH_MS)
}

/// The overlay's state: pending messages, oldest first, and the deadline
/// for the one on display.
pub struct DebugDisplay {
    pub queue: VecDeque<String>,
    pub flip: Option<u64>,
}

impl DebugDisplay {
    /// Whenever messages are pending, a deadline is armed.
    pub open spec fn wf(self) -> bool {
        self.queue@.len() > 0 ==> self.flip is Some
    }

    /// An empty overlay with no deadline armed.
    pub fn new() -> (d: DebugDisplay)
        ensures
            d.queue@.len() == 0,
            d.flip is None,
            d.wf(),
    {
        DebugDisplay { queue: VecDeque::new(), flip: Option::None }
    }

    /// Queues one message; if nothing was on display, arms its deadline.
    pub fn push_event(&mut self, text: String, now_ms: u64)
        requires
            old(self).wf(),
            now_ms + DEBUG_DISPLAY_FRESH_MS <= u64::MAX,
        ensures
            final(self).wf(),
            final(self).queue@ == old(self).queue@.push(text),
            final(self).flip == (if old(self).flip is None {
                Some((now_ms + DEBUG_DISPLAY_FRESH_MS) as u64)
            } else {
                old(self).flip
            }),
    {
        if self.flip.is_none() {
            self.flip = debug_display_reset(now_ms);
        }
        self.queue.push_back(text);
    }

    /// Rotates the queue once the displayed message's deadline has passed:
    /// the front message is dropped, and the next one (if any) gets a fresh
    /// deadline.
    pub fn rotate(&mut self, now_ms: u64)
        requires
            old(self).wf(),
            now_ms + DEBUG_DISPLAY_FRESH_MS <= u64::MAX,
        ensures
            final(self).wf(),
            ({
                let stale = old(self).flip matches Some(f) && f < now_ms;
                if stale {
                    &&& final(self).queue@ == (if old(self).queue@.len() == 0 {
                        old(self).queue@
                    } else {
                        old(self).queue@.skip(1)
                    })
                    &&& final(self).flip == (if final(self).queue@.len() == 0 {
                        Option::<u64>::None
                    } else {
                        Some((now_ms + DEBUG_DISPLAY_FRESH_MS) as u64)
                    })
                } else {
                    &&& final(self).queue@ == old(self).queue@
                    &&& final(self).flip == old(self).flip
                }
            }),
    {
        let stale = match self.flip {
            Option::Some(f) => f < now_ms,
            Option::None => false,
        };
        if stale {
            self.queue.pop_front();
            self.flip = if self.queue.len() == 0 {
                Option::None
            } else {
                debug_display_reset(now_ms)
            };
            proof {
                if old(self).queue@.len() > 0 {
                    assert(self.queue@ =~= old(self).queue@.skip(1));
                }
            }
        }
    }
}

} // verus!
