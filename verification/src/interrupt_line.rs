//! One edge-triggered external interrupt line.
//!
//! The line walks the life cycle `Unconfigured -> Configured -> Armed`,
//! and bounces between `Armed` and the transient `Triggered` while in
//! service: a hardware edge takes an armed line to `Triggered` (pending
//! flag set), and the handler's pending-clear write takes it back to
//! `Armed`. Failing to clear the pending flag would re-enter the handler
//! forever, so clearing is part of the handler's contract, not a courtesy.

use vstd::prelude::*;
use crate::guarded_cell::CriticalSection;

verus! {

/// Which voltage transition raises the interrupt.
#[derive(Clone, Copy, PartialEq, Eq, Structural, Debug)]
pub enum TriggerEdge {
    Rising,
    Falling,
    Both,
}

/// Where the line stands in its life cycle.
#[derive(Clone, Copy, PartialEq, Eq, Structural, Debug)]
pub enum LineState {
    /// Fresh out of reset: not routed to any pin, masked.
    Unconfigured,
    /// Routed and edge-sensitive, but still masked at the controller.
    Configured,
    /// Unmasked: hardware edges reach the handler.
    Armed,
    /// An edge arrived and its pending flag has not been cleared yet.
    Triggered,
}

/// The count left after one more pending-clear register write, saturating
/// so the model never overflows.
pub open spec fn bump(c: int) -> int {
    if c < u64::MAX as int {
        c + 1
    } else {
        c
    }
}

/// The register-level state of one interrupt line: trigger edge routing,
/// controller mask and priority, and the pending flag with a count of the
/// clear writes made to it (the count is what a harness watches to see
/// that every handler invocation cleared the flag exactly once).
pub struct InterruptLine {
    line_id: u8,
    state: LineState,
    edge: Option<TriggerEdge>,
    priority: u8,
    masked: bool,
    pending: bool,
    clear_writes: u64,
}

impl InterruptLine {
    /// Which multiplexer slot the line occupies.
    pub closed spec fn id(&self) -> int {
        self.line_id as int
    }

    /// Life-cycle state.
    pub closed spec fn state(&self) -> LineState {
        self.state
    }

    /// The configured edge sensitivity, once configured.
    pub closed spec fn edge_config(&self) -> Option<TriggerEdge> {
        self.edge
    }

    /// The priority set when the line was armed.
    pub closed spec fn prio(&self) -> int {
        self.priority as int
    }

    /// Whether the controller masks the line.
    pub closed spec fn is_masked(&self) -> bool {
        self.masked
    }

    /// Whether the hardware pending flag is set.
    pub closed spec fn is_pending(&self) -> bool {
        self.pending
    }

    /// How many pending-clear writes software has made.
    pub closed spec fn clear_writes(&self) -> int {
        self.clear_writes as int
    }

    /// The state machine's internal consistency: edge routing exists from
    /// `Configured` on, the mask drops exactly when the line is armed, and
    /// the pending flag is set exactly in `Triggered` once armed.
    pub open spec fn wf(&self) -> bool {
        &&& (self.state() is Unconfigured ==> self.edge_config() is None)
        &&& (!(self.state() is Unconfigured) ==> self.edge_config() is Some)
        &&& (self.is_masked() <==> (self.state() is Unconfigured || self.state() is Configured))
        &&& (self.state() is Armed ==> !self.is_pending())
        &&& (self.state() is Triggered ==> self.is_pending())
    }

    /// Read the life-cycle state.
    pub fn current_state(&self) -> (r: LineState)
        ensures
            r == self.state(),
    {
        self.state
    }

    /// Read the pending flag. Touching the pending register is only legal
    /// inside a critical section.
    pub fn pending_now(&self, _cs: &CriticalSection) -> (r: bool)
        ensures
            r == self.is_pending(),
    {
        self.pending
    }

    /// Read the running count of pending-clear writes.
    pub fn clear_write_count(&self, _cs: &CriticalSection) -> (r: u64)
        ensures
            r as int == self.clear_writes(),
    {
        self.clear_writes
    }

    /// A line fresh out of reset: masked, unrouted, nothing pending.
    pub fn new(line_id: u8) -> (r: Self)
        ensures
            r.wf(),
            r.state() is Unconfigured,
            r.id() == line_id as int,
            !r.is_pending(),
            r.clear_writes() == 0,
    {
        InterruptLine {
            line_id,
            state: LineState::Unconfigured,
            edge: None,
            priority: 0,
            masked: true,
            pending: false,
            clear_writes: 0,
        }
    }

    /// Route the line to its pin and set edge sensitivity. Must happen
    /// before arming; the line stays masked.
    pub fn configure(&mut self, edge: TriggerEdge)
        requires
            old(self).wf(),
            old(self).state() is Unconfigured,
        ensures
            final(self).wf(),
            final(self).state() is Configured,
            final(self).edge_config() == Some(edge),
            final(self).id() == old(self).id(),
            final(self).is_masked(),
            final(self).is_pending() == old(self).is_pending(),
            final(self).clear_writes() == old(self).clear_writes(),
    {
        self.state = LineState::Configured;
        self.edge = Some(edge);
    }

    /// Set the priority, clear any stale pending flag, and unmask the
    /// line. From here on, hardware edges invoke the handler.
    pub fn arm(&mut self, priority: u8, _cs: &CriticalSection)
        requires
            old(self).wf(),
            old(self).state() is Configured,
        ensures
            final(self).wf(),
            final(self).state() is Armed,
            final(self).prio() == priority as int,
            !final(self).is_masked(),
            !final(self).is_pending(),
            final(self).edge_config() == old(self).edge_config(),
            final(self).id() == old(self).id(),
            final(self).clear_writes() == bump(old(self).clear_writes()),
    {
        self.priority = priority;
        self.pending = false;
        self.clear_writes = if self.clear_writes < u64::MAX {
            self.clear_writes + 1
        } else {
            self.clear_writes
        };
        self.masked = false;
        self.state = LineState::Armed;
    }

    /// A hardware edge reached the line. On an armed line it raises the
    /// pending flag and makes the line `Triggered`; on a masked line the
    /// flag latches but the state does not advance; a line already
    /// `Triggered` stays `Triggered`.
    ///
    /// The hardware performs this register update atomically; no critical
    /// section is involved.
    pub fn raise(&mut self)
        requires
            old(self).wf(),
        ensures
            final(self).wf(),
            final(self).is_pending(),
            final(self).state() == (if old(self).state() is Armed || old(self).state()
                is Triggered {
                LineState::Triggered
            } else {
                old(self).state()
            }),
            final(self).edge_config() == old(self).edge_config(),
            final(self).id() == old(self).id(),
            final(self).prio() == old(self).prio(),
            final(self).is_masked() == old(self).is_masked(),
            final(self).clear_writes() == old(self).clear_writes(),
    {
        self.pending = true;
        if matches!(self.state, LineState::Armed) {
            self.state = LineState::Triggered;
        }
    }

    /// The handler's pending-clear write. Unconditionally clears the flag
    /// and, on a triggered line, returns it to `Armed`; the write is
    /// counted so a harness can check there was exactly one per handler
    /// invocation. Touching the pending register is only legal inside a
    /// critical section.
    pub fn clear_pending(&mut self, _cs: &CriticalSection)
        requires
            old(self).wf(),
        ensures
            final(self).wf(),
            !final(self).is_pending(),
            final(self).clear_writes() == bump(old(self).clear_writes()),
            final(self).state() == (if old(self).state() is Triggered {
                LineState::Armed
            } else {
                old(self).state()
            }),
            final(self).edge_config() == old(self).edge_config(),
            final(self).id() == old(self).id(),
            final(self).prio() == old(self).prio(),
            final(self).is_masked() == old(self).is_masked(),
    {
        self.pending = false;
        self.clear_writes = if self.clear_writes < u64::MAX {
            self.clear_writes + 1
        } else {
            self.clear_writes
        };
        if matches!(self.state, LineState::Triggered) {
            self.state = LineState::Armed;
        }
    }
}

} // verus!
