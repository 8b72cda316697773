//! The control-line handshake that brings the attached co-processor from
//! power-on into a communication-ready state.
//!
//! The sequence over the three discrete lines is fixed: hold chip-select
//! inactive, force the co-processor into reset for a settling time, release
//! the reset, then poll the busy/ack line — with a bounded number of polls,
//! never an unbounded wait — until the co-processor signals ready; finally
//! assert chip-select for the attach exchange on the serial bus and
//! deassert it again.
//!
//! The bus itself and the sampled line levels belong to the hardware; the
//! caller hands in the levels the busy/ack line shows at successive polls
//! and the outcome of the attach exchange, and the contract pins down the
//! protocol's decision for every such input.

use vstd::prelude::*;

verus! {

/// How long the reset line is held asserted before release, in
/// milliseconds.
pub const RESET_HOLD_MS: u16 = 10;

/// How long the poller waits between two busy/ack samples, in
/// milliseconds.
pub const POLL_INTERVAL_MS: u16 = 1;

/// How many busy/ack samples are taken before the handshake gives up.
pub const MAX_READY_POLLS: u16 = 100;

/// Clock polarity of the serial bus when idle.
#[derive(Clone, Copy, PartialEq, Eq, Structural, Debug)]
pub enum Polarity {
    IdleLow,
    IdleHigh,
}

/// On which clock transition the serial bus samples data.
#[derive(Clone, Copy, PartialEq, Eq, Structural, Debug)]
pub enum Phase {
    CaptureOnFirstTransition,
    CaptureOnSecondTransition,
}

/// The fixed clock mode the co-processor expects; agreed beforehand, not
/// negotiated.
#[derive(Clone, Copy, PartialEq, Eq, Structural, Debug)]
pub struct SpiMode {
    pub polarity: Polarity,
    pub phase: Phase,
}

/// A synchronous serial bus already clocked and configured.
#[derive(Clone, Copy, PartialEq, Eq, Structural, Debug)]
pub struct BusHandle {
    pub clock_hz: u32,
    pub mode: SpiMode,
}

/// The two output control lines the handshake drives. `true` means the
/// line is driven to its active level.
#[derive(Clone, Copy, PartialEq, Eq, Structural, Debug)]
pub struct ControlLines {
    pub reset_asserted: bool,
    pub cs_asserted: bool,
}

/// Which stage of the handshake failed.
#[derive(Clone, Copy, PartialEq, Eq, Structural, Debug)]
pub enum HandshakeError {
    /// The busy/ack line never signalled ready within the polling bound.
    ReadyTimeout,
    /// The co-processor signalled ready but the attach exchange on the
    /// bus failed.
    BusError,
}

impl HandshakeError {
    /// Whether repeating the reset sequence can help: a busy/ack timeout
    /// may be transient, a failed attach exchange points at absent or
    /// misbehaving bus hardware.
    pub fn is_retryable(&self) -> (r: bool)
        ensures
            r == (*self is ReadyTimeout),
    {
        matches!(self, HandshakeError::ReadyTimeout)
    }
}

/// A millisecond-granularity delay source. The model only accounts for
/// the time asked of it, so contracts can bound how long a sequence may
/// block.
pub struct DelaySource {
    total_waited_ms: u64,
}

impl DelaySource {
    /// The total time this source has been asked to wait, in
    /// milliseconds.
    pub closed spec fn total(&self) -> int {
        self.total_waited_ms as int
    }

    /// A fresh source that has not waited yet.
    pub fn new() -> (r: DelaySource)
        ensures
            r.total() == 0,
    {
        DelaySource { total_waited_ms: 0 }
    }

    /// Block the foreground for `ms` milliseconds.
    pub fn wait(&mut self, ms: u16)
        requires
            old(self).total() + ms as int <= u64::MAX as int,
        ensures
            final(self).total() == old(self).total() + ms as int,
    {
        self.total_waited_ms = self.total_waited_ms + ms as u64;
    }

    /// Read the accounted total.
    pub fn total_waited(&self) -> (r: u64)
        ensures
            r as int == self.total(),
    {
        self.total_waited_ms
    }
}

/// The session a successful handshake hands to the driver module: the bus
/// and the control lines, owned together for the rest of execution, plus
/// how many busy/ack polls the bring-up took.
#[derive(Clone, Copy, PartialEq, Eq, Structural, Debug)]
pub struct HandshakeSession {
    pub bus: BusHandle,
    pub lines: ControlLines,
    pub polls_used: u16,
}

impl HandshakeSession {
    /// A session is handed out with the reset released and chip-select
    /// deasserted, after at least one and at most the bounded number of
    /// polls.
    pub open spec fn wf(&self) -> bool {
        &&& !self.lines.reset_asserted
        &&& !self.lines.cs_asserted
        &&& 1 <= self.polls_used <= MAX_READY_POLLS
    }
}

/// The level the busy/ack line shows at poll `i`: a missing sample reads
/// as low, like a line the co-processor never drives.
pub open spec fn line_high(samples: Seq<bool>, i: int) -> bool {
    0 <= i < samples.len() && samples[i]
}

/// Whether the co-processor signals ready within the polling bound.
pub open spec fn becomes_ready(samples: Seq<bool>) -> bool {
    exists|i: int| 0 <= i < MAX_READY_POLLS as int && #[trigger] line_high(samples, i)
}

/// The most the whole handshake may ask of the delay source, in
/// milliseconds: the reset settling time plus one interval per poll.
pub open spec fn handshake_delay_bound() -> int {
    RESET_HOLD_MS as int + MAX_READY_POLLS as int * POLL_INTERVAL_MS as int
}

/// Run the bring-up sequence once.
///
/// `ready_samples` holds the levels the busy/ack line shows at successive
/// polls after the reset release; `attach_ok` is the outcome of the attach
/// exchange the bus performs under chip-select. The handshake succeeds
/// exactly when the line goes high within the polling bound and the attach
/// exchange succeeds, and it returns a timeout — it never hangs — when the
/// line stays low.
pub fn establish(
    bus: BusHandle,
    lines: ControlLines,
    ready_samples: &Vec<bool>,
    attach_ok: bool,
    delay: &mut DelaySource,
) -> (r: Result<HandshakeSession, HandshakeError>)
    requires
        old(delay).total() + handshake_delay_bound() <= u64::MAX as int,
    ensures
        r is Ok <==> becomes_ready(ready_samples@) && attach_ok,
        (match r {
            Ok(session) => {
                &&& session.wf()
                &&& session.bus == bus
                &&& line_high(ready_samples@, session.polls_used - 1)
                &&& forall|j: int|
                    0 <= j < session.polls_used - 1 ==> !line_high(ready_samples@, j)
                &&& final(delay).total() == old(delay).total() + RESET_HOLD_MS as int + (
                session.polls_used - 1) * POLL_INTERVAL_MS as int
            },
            Err(e) => {
                &&& (e is ReadyTimeout <==> !becomes_ready(ready_samples@))
                &&& (e is BusError <==> becomes_ready(ready_samples@) && !attach_ok)
            },
        }),
        final(delay).total() <= old(delay).total() + handshake_delay_bound(),
        final(delay).total() >= old(delay).total() + RESET_HOLD_MS as int,
{
    let ghost start = delay.total();
    let mut lines = lines;

    // Stage 1: keep chip-select inactive while the co-processor resets.
    lines.cs_asserted = false;

    // Stage 2: force the co-processor into reset, hold, release.
    lines.reset_asserted = true;
    delay.wait(RESET_HOLD_MS);
    lines.reset_asserted = false;

    // Stage 3: poll the busy/ack line, bounded, never indefinitely.
    let mut i: u16 = 0;
    let mut ready = false;
    while i < MAX_READY_POLLS && !ready
        invariant
            0 <= i <= MAX_READY_POLLS,
            forall|j: int| 0 <= j < i ==> !line_high(ready_samples@, j),
            ready ==> i < MAX_READY_POLLS && line_high(ready_samples@, i as int),
            delay.total() == start + RESET_HOLD_MS as int + i as int * POLL_INTERVAL_MS as int,
            start + handshake_delay_bound() <= u64::MAX as int,
        decreases MAX_READY_POLLS as int - i as int + (if ready {
            0int
        } else {
            1int
        }),
    {
        let level = if (i as usize) < ready_samples.len() {
            ready_samples[i as usize]
        } else {
            false
        };
        if level {
            ready = true;
        } else {
            delay.wait(POLL_INTERVAL_MS);
            i = i + 1;
        }
    }
    if !ready {
        assert(!becomes_ready(ready_samples@));
        return Err(HandshakeError::ReadyTimeout);
    }
    assert(line_high(ready_samples@, i as int));

    // Stage 4: the attach exchange runs on the bus under chip-select;
    // `attach_ok` is its outcome.
    lines.cs_asserted = true;
    lines.cs_asserted = false;
    if !attach_ok {
        return Err(HandshakeError::BusError);
    }
    Ok(HandshakeSession { bus, lines, polls_used: i + 1 })
}

} // verus!
