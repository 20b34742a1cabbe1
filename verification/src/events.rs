//! Events delivered to a lease's handle, and the one-slot coalescing mailbox
//! that carries them: a newer renewal may overwrite an unconsumed one (only
//! the latest deadline matters), and after a terminal event nothing further
//! is delivered.

use vstd::prelude::*;

verus! {

/// What a lease's handle can learn. The last three are terminal: each lease
/// sees at most one of them, and nothing after it.
#[derive(Clone, Copy, Debug, PartialEq, Eq, Structural)]
pub enum LeaseEvent {
    /// The authority acknowledged a renewal; the lease now expires at this
    /// absolute time.
    Renewed {
        /// New expiry deadline in milliseconds.
        deadline_ms: u64,
    },
    /// The authority reported the lease gone; it will not be renewed again.
    Revoked,
    /// The deadline passed without an acknowledgement; the lease is no longer
    /// tracked.
    Expired,
    /// The whole manager shut down; no lease is tracked any more.
    ManagerClosed,
}

/// Whether an event ends the handle's stream of events.
pub open spec fn is_terminal(e: LeaseEvent) -> bool {
    !(e is Renewed)
}

/// The handle's mailbox: capacity one, newest event wins, closed for good by
/// a terminal event.
pub struct EventSlot {
    pending: Option<LeaseEvent>,
    terminated: bool,
}

impl EventSlot {
    /// The event waiting to be consumed, if any.
    pub closed spec fn spec_pending(&self) -> Option<LeaseEvent> {
        self.pending
    }

    /// Whether a terminal event has been offered.
    pub closed spec fn spec_terminated(&self) -> bool {
        self.terminated
    }

    /// An empty, open mailbox.
    pub fn new() -> (r: Self)
        ensures
            r.spec_pending() is None,
            !r.spec_terminated(),
    {
        EventSlot { pending: None, terminated: false }
    }

    /// Delivers an event: it replaces whatever was pending, unless a terminal
    /// event was already offered, in which case nothing changes — a closed
    /// handle sees no further events.
    pub fn offer(&mut self, e: LeaseEvent)
        ensures
            old(self).spec_terminated() ==> *final(self) == *old(self),
            !old(self).spec_terminated() ==> final(self).spec_pending() == Some(e),
            !old(self).spec_terminated() ==> final(self).spec_terminated() == is_terminal(e),
    {
        if !self.terminated {
            self.pending = Some(e);
            self.terminated = match e {
                LeaseEvent::Renewed { .. } => false,
                _ => true,
            };
        }
    }

    /// Consumes the pending event, if any; the mailbox is empty afterwards,
    /// and stays closed if it was closed.
    pub fn take(&mut self) -> (r: Option<LeaseEvent>)
        ensures
            r == old(self).spec_pending(),
            final(self).spec_pending() is None,
            final(self).spec_terminated() == old(self).spec_terminated(),
    {
        let r = self.pending;
        self.pending = None;
        r
    }
}

} // verus!
