//! The event-loop wake capability.
//!
//! The engine holds a cloneable handle and calls `wake` from its own
//! threads to ask the host to pump it soon. Two implementations satisfy
//! the contract: a polling stand-in whose wake does nothing, acceptable
//! only because the driver pumps unconditionally every tick, and a real
//! signal whose token the input wait multiplexes with the keyboard. This
//! module holds that signal's state; the embedding layer shares it behind
//! its own lock and may clone handles to it freely, since taking the token
//! clears exactly what waking set.

use vstd::prelude::*;

verus! {

/// The pending-wake token: set by the engine's wake calls, cleared when
/// the host observes it and pumps.
pub struct WakeSignal {
    pending: bool,
}

impl WakeSignal {
    /// Whether a wake has been requested and not yet observed.
    pub closed spec fn is_pending(self) -> bool {
        self.pending
    }

    /// A fresh signal with no wake pending.
    pub fn new() -> (w: WakeSignal)
        ensures
            !w.is_pending(),
    {
        WakeSignal { pending: false }
    }

    /// The engine has work: leave a token for the host. Waking twice is
    /// the same as waking once; the request is never lost.
    pub fn wake(&mut self)
        ensures
            final(self).is_pending(),
    {
        self.pending = true;
    }

    /// The host is about to wait for input: observe and clear the token.
    /// Returns whether a pump was requested since the last look.
    pub fn take(&mut self) -> (was: bool)
        ensures
            !final(self).is_pending(),
            was == old(self).is_pending(),
    {
        let was = self.pending;
        self.pending = false;
        was
    }
}

} // verus!
