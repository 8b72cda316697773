//! Startup sequencing and the foreground loop.
//!
//! Startup runs exactly once and in a fixed order: co-processor handshake
//! first — a single uninterrupted bring-up, before any interrupt line is
//! unmasked — then the interrupt line's configuration, then the shared
//! cells are populated inside one critical section, and only then is the
//! line armed. After that the foreground loop toggles its indicator once
//! per iteration and waits for the period the interrupt handler shares
//! with it.
//!
//! Pin assignment, bus timing and line routing live in one configuration
//! value instead of being scattered through the control flow; a
//! configuration is valid only if it routes every role to its own pin.

use vstd::prelude::*;
use crate::handshake::{
    BusHandle,
    ControlLines,
    DelaySource,
    HandshakeError,
    HandshakeSession,
    SpiMode,
    becomes_ready,
    establish,
    handshake_delay_bound,
};
use crate::interrupt_line::{InterruptLine, TriggerEdge};
use crate::machine::{Machine, MachineEvent, step_model};
use crate::period::PERIOD_FLOOR_MS;

verus! {

/// Everything that distinguishes one board variant from another: which
/// pin plays which role, how the bus is clocked, which interrupt line the
/// button is routed to, and the initial blink period.
#[derive(Clone, Copy, PartialEq, Eq, Structural, Debug)]
pub struct BoardConfig {
    pub led_pin: u8,
    pub button_pin: u8,
    pub sck_pin: u8,
    pub miso_pin: u8,
    pub mosi_pin: u8,
    pub cs_pin: u8,
    pub boot_pin: u8,
    pub reset_pin: u8,
    pub ack_pin: u8,
    pub spi_mode: SpiMode,
    pub spi_clock_hz: u32,
    pub line_id: u8,
    pub trigger_edge: TriggerEdge,
    pub irq_priority: u8,
    pub initial_period_ms: u16,
}

impl BoardConfig {
    /// The pins the configuration claims, one per role.
    pub open spec fn pin_seq(&self) -> Seq<u8> {
        seq![
            self.led_pin,
            self.button_pin,
            self.sck_pin,
            self.miso_pin,
            self.mosi_pin,
            self.cs_pin,
            self.boot_pin,
            self.reset_pin,
            self.ack_pin,
        ]
    }

    /// A usable configuration: every role has a pin of its own — each pin
    /// is configured exactly once — and the initial period sits at or
    /// above the floor.
    pub open spec fn wf(&self) -> bool {
        &&& (forall|a: int, b: int|
            0 <= a < b < self.pin_seq().len() ==> self.pin_seq()[a] != self.pin_seq()[b])
        &&& self.initial_period_ms >= PERIOD_FLOOR_MS
    }

    /// The claimed pins as a list.
    pub fn pins(&self) -> (r: Vec<u8>)
        ensures
            r@ == self.pin_seq(),
    {
        let mut v: Vec<u8> = Vec::new();
        v.push(self.led_pin);
        v.push(self.button_pin);
        v.push(self.sck_pin);
        v.push(self.miso_pin);
        v.push(self.mosi_pin);
        v.push(self.cs_pin);
        v.push(self.boot_pin);
        v.push(self.reset_pin);
        v.push(self.ack_pin);
        proof {
            assert(v@ =~= self.pin_seq());
        }
        v
    }

    /// Decide whether the configuration is usable.
    pub fn validate(&self) -> (r: bool)
        ensures
            r == self.wf(),
    {
        let pin_list = self.pins();
        let distinct = all_distinct(&pin_list);
        distinct && self.initial_period_ms >= PERIOD_FLOOR_MS
    }
}

/// Whether no value occurs twice in the list.
pub fn all_distinct(v: &Vec<u8>) -> (r: bool)
    ensures
        r == (forall|a: int, b: int| 0 <= a < b < v@.len() ==> v@[a] != v@[b]),
{
    let n = v.len();
    let mut i: usize = 0;
    while i < n
        invariant
            0 <= i <= n,
            n == v@.len(),
            forall|a: int, b: int| 0 <= a < b < v@.len() && a < i ==> v@[a] != v@[b],
        decreases n - i,
    {
        let mut j: usize = i + 1;
        while j < n
            invariant
                0 <= i < j <= n,
                n == v@.len(),
                forall|b: int| i < b < j ==> v@[i as int] != v@[b],
            decreases n - j,
        {
            if v[i] == v[j] {
                return false;
            }
            j = j + 1;
        }
        i = i + 1;
    }
    true
}

/// A running system: the machine the two contexts share, and the session
/// the handshake produced for the driver module.
pub struct System {
    pub machine: Machine,
    pub session: HandshakeSession,
}

/// Bring the system up, in the order the design fixes: the handshake
/// first (one atomic bring-up, before the interrupt line can preempt
/// anything), then the line configuration, the shared-state
/// initialization inside one critical section, and the arming of the
/// line last — so the handler can never run before the cells it depends
/// on hold values.
///
/// Succeeds exactly when the handshake does; a handshake failure is
/// returned to the caller rather than swallowed, so the caller can decide
/// between retry and halt.
pub fn startup(
    cfg: &BoardConfig,
    bus: BusHandle,
    lines: ControlLines,
    ready_samples: &Vec<bool>,
    attach_ok: bool,
    delay: &mut DelaySource,
) -> (r: Result<System, HandshakeError>)
    requires
        cfg.wf(),
        old(delay).total() + handshake_delay_bound() <= u64::MAX as int,
    ensures
        r is Ok <==> becomes_ready(ready_samples@) && attach_ok,
        (match r {
            Ok(sys) => {
                &&& sys.machine.initialized()
                &&& sys.machine.irq_enabled()
                &&& !sys.machine.led()
                &&& sys.machine.model().period_ms == cfg.initial_period_ms as int
                &&& sys.machine.model().count == 0
                &&& !sys.machine.model().pending
                &&& sys.session.wf()
                &&& sys.session.bus == bus
            },
            Err(e) => {
                &&& (e is ReadyTimeout <==> !becomes_ready(ready_samples@))
                &&& (e is BusError <==> becomes_ready(ready_samples@) && !attach_ok)
            },
        }),
        final(delay).total() <= old(delay).total() + handshake_delay_bound(),
{
    let session = match establish(bus, lines, ready_samples, attach_ok, delay) {
        Ok(s) => s,
        Err(e) => {
            return Err(e);
        },
    };
    let mut machine = Machine::power_on();
    let mut line = InterruptLine::new(cfg.line_id);
    line.configure(cfg.trigger_edge);
    machine.init_shared(line, cfg.initial_period_ms);
    machine.arm_line(cfg.irq_priority);
    Ok(System { machine, session })
}

impl System {
    /// One foreground loop iteration: toggle the indicator, read the
    /// shared period inside a critical section, and block on the delay
    /// source for exactly that long.
    pub fn loop_iteration(&mut self, delay: &mut DelaySource) -> (r: u16)
        requires
            old(self).machine.initialized(),
            old(self).machine.irq_enabled(),
            old(delay).total() + u16::MAX as int <= u64::MAX as int,
        ensures
            final(self).machine.initialized(),
            final(self).machine.irq_enabled(),
            final(self).machine.model() == step_model(
                old(self).machine.model(),
                MachineEvent::LoopTick,
            ),
            r as int == old(self).machine.model().period_ms,
            final(delay).total() == old(delay).total() + r as int,
            final(self).session == old(self).session,
    {
        let ms = self.machine.foreground_tick();
        delay.wait(ms);
        ms
    }
}

} // verus!
