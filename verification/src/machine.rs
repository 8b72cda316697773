//! The single-core execution model: one foreground context, one interrupt
//! handler, and the shared state both of them reach only through critical
//! sections.
//!
//! The abstract state of the shared cells is a [`CoreModel`]; the events
//! the outside world can inject — a hardware edge, one foreground loop
//! iteration — are a [`MachineEvent`]; and [`step_model`] is the transition
//! function. The executable [`Machine`] carries the real cells and proves
//! that every operation follows the critical-section discipline and lands
//! exactly on the transition [`step_model`] prescribes.

use vstd::prelude::*;
use crate::guarded_cell::{CriticalSection, GuardedCell};
use crate::interrupt_line::{InterruptLine, bump};
use crate::period::{PERIOD_FLOOR_MS, PeriodState, halved, period_after};

verus! {

/// The abstract contents of the shared state: the blink period, the
/// trigger counter, the pending flag, the number of pending-clear writes
/// made so far, and the foreground indicator.
pub ghost struct CoreModel {
    pub period_ms: int,
    pub count: int,
    pub pending: bool,
    pub clear_writes: int,
    pub led_on: bool,
}

/// What the outside world can do to an initialized machine, one step at a
/// time. Steps happen between critical sections, never inside one.
#[derive(Clone, Copy, PartialEq, Eq, Structural, Debug)]
pub enum MachineEvent {
    /// A hardware edge on the armed interrupt line; on this single core it
    /// preempts the foreground at once and the handler runs to completion.
    Edge,
    /// One foreground loop iteration: toggle the indicator and read the
    /// period to wait for.
    LoopTick,
}

/// The trigger counter after one more trigger, saturating at the counter
/// width instead of wrapping.
pub open spec fn count_bump(c: int) -> int {
    if c < u16::MAX as int {
        c + 1
    } else {
        c
    }
}

/// The model with the pending flag raised: what a hardware edge leaves
/// behind before the handler has run.
pub open spec fn with_pending(m: CoreModel) -> CoreModel {
    CoreModel { pending: true, ..m }
}

/// What one complete handler invocation does to the shared state: halve
/// the period, count the trigger, and clear the pending flag with exactly
/// one clear write.
pub open spec fn handler_model(m: CoreModel) -> CoreModel {
    CoreModel {
        period_ms: halved(m.period_ms),
        count: count_bump(m.count),
        pending: false,
        clear_writes: bump(m.clear_writes),
        led_on: m.led_on,
    }
}

/// The transition function of the whole machine, one event at a time.
pub open spec fn step_model(m: CoreModel, ev: MachineEvent) -> CoreModel {
    match ev {
        MachineEvent::Edge => handler_model(with_pending(m)),
        MachineEvent::LoopTick => CoreModel { led_on: !m.led_on, ..m },
    }
}

/// The value a step lets the foreground observe: a loop iteration reads
/// the period, a hardware edge is invisible to the foreground.
pub open spec fn observed(m: CoreModel, ev: MachineEvent) -> Option<int> {
    match ev {
        MachineEvent::Edge => None,
        MachineEvent::LoopTick => Some(m.period_ms),
    }
}

/// The model after a whole sequence of events.
pub open spec fn run_model(m: CoreModel, events: Seq<MachineEvent>) -> CoreModel
    decreases events.len(),
{
    if events.len() == 0 {
        m
    } else {
        run_model(step_model(m, events[0]), events.drop_first())
    }
}

/// How many hardware edges a sequence of events contains.
pub open spec fn edge_count(events: Seq<MachineEvent>) -> nat
    decreases events.len(),
{
    if events.len() == 0 {
        0
    } else {
        (if events[0] is Edge {
            1nat
        } else {
            0nat
        }) + edge_count(events.drop_first())
    }
}

/// The values the foreground observes over a sequence of events, in
/// order: one per loop tick, none for an edge.
pub open spec fn observations(m: CoreModel, events: Seq<MachineEvent>) -> Seq<int>
    decreases events.len(),
{
    if events.len() == 0 {
        Seq::empty()
    } else {
        (match observed(m, events[0]) {
            Some(v) => seq![v],
            None => Seq::empty(),
        }) + observations(step_model(m, events[0]), events.drop_first())
    }
}

/// Running one more event after a sequence is one more step after the
/// run, and appends at most one more observation.
pub proof fn lemma_run_model_snoc(m: CoreModel, events: Seq<MachineEvent>, ev: MachineEvent)
    ensures
        run_model(m, events.push(ev)) == step_model(run_model(m, events), ev),
        observations(m, events.push(ev)) == observations(m, events) + (match observed(
            run_model(m, events),
            ev,
        ) {
            Some(v) => seq![v],
            None => Seq::<int>::empty(),
        }),
    decreases events.len(),
{
    if events.len() == 0 {
        let single = events.push(ev);
        assert(single[0] == ev);
        assert(single.drop_first() =~= Seq::<MachineEvent>::empty());
        assert(run_model(step_model(m, ev), single.drop_first()) == step_model(m, ev));
        assert(run_model(m, single) == step_model(m, ev));
        assert(run_model(m, events) == m);
        assert(observations(step_model(m, ev), single.drop_first()) =~= Seq::<int>::empty());
        assert(observations(m, single) =~= (match observed(m, ev) {
            Some(v) => seq![v],
            None => Seq::<int>::empty(),
        }));
        assert(observations(m, events) + (match observed(run_model(m, events), ev) {
            Some(v) => seq![v],
            None => Seq::<int>::empty(),
        }) =~= (match observed(m, ev) {
            Some(v) => seq![v],
            None => Seq::<int>::empty(),
        }));
    } else {
        assert(events.push(ev)[0] == events[0]);
        assert(events.push(ev).drop_first() =~= events.drop_first().push(ev));
        lemma_run_model_snoc(step_model(m, events[0]), events.drop_first(), ev);
        assert(observations(m, events.push(ev)) =~= observations(m, events) + (match observed(
            run_model(m, events),
            ev,
        ) {
            Some(v) => seq![v],
            None => Seq::<int>::empty(),
        }));
    }
}

/// Running a sequence of events leaves the period exactly where repeated
/// halving puts it: every handler write is a whole write, and nothing else
/// touches the period.
pub proof fn lemma_run_model_period(m: CoreModel, events: Seq<MachineEvent>)
    ensures
        run_model(m, events).period_ms == period_after(m.period_ms, edge_count(events)),
        run_model(m, events).led_on == (m.led_on != ((events.len() - edge_count(events)) % 2
            == 1)),
    decreases events.len(),
{
    if events.len() > 0 {
        let m1 = step_model(m, events[0]);
        lemma_run_model_period(m1, events.drop_first());
        if events[0] is Edge {
            crate::period::lemma_period_after_shift(m.period_ms, edge_count(events.drop_first()));
        }
    }
}

/// Every handler invocation in a run clears the pending flag with exactly
/// one clear write: after any sequence of events starting from a machine
/// with no pending edge, the flag is down again and the number of clear
/// writes has grown by exactly the number of edges.
pub proof fn lemma_run_model_clears(m: CoreModel, events: Seq<MachineEvent>)
    requires
        !m.pending,
        m.clear_writes + events.len() <= u64::MAX as int,
        m.clear_writes >= 0,
    ensures
        !run_model(m, events).pending,
        run_model(m, events).clear_writes == m.clear_writes + edge_count(events),
        edge_count(events) <= events.len(),
    decreases events.len(),
{
    if events.len() > 0 {
        lemma_run_model_clears(step_model(m, events[0]), events.drop_first());
    }
}

/// No torn reads: whatever way handler invocations and foreground reads
/// interleave, the value a foreground read observes is exactly the value
/// the last completed handler write left behind — the initial period
/// halved once per preceding edge, clamped to the floor — never a mixture
/// of two writes, and never zero.
pub proof fn lemma_read_observes_completed_write(
    m: CoreModel,
    events: Seq<MachineEvent>,
    i: int,
)
    requires
        m.period_ms >= PERIOD_FLOOR_MS as int,
        0 <= i < events.len(),
        events[i] is LoopTick,
    ensures
        observed(run_model(m, events.take(i)), events[i]) == Some(
            period_after(m.period_ms, edge_count(events.take(i))),
        ),
        period_after(m.period_ms, edge_count(events.take(i))) >= PERIOD_FLOOR_MS as int,
{
    lemma_run_model_period(m, events.take(i));
    crate::period::lemma_period_stays_positive(m.period_ms, edge_count(events.take(i)));
}

/// The executable machine: the interrupt-enable flag of the single core,
/// the foreground's indicator, and the three shared cells the two
/// contexts communicate through.
pub struct Machine {
    interrupts_enabled: bool,
    led_on: bool,
    line: GuardedCell<InterruptLine>,
    period: GuardedCell<PeriodState>,
    count: GuardedCell<u16>,
}

impl Machine {
    /// Whether the core currently takes interrupts.
    pub closed spec fn irq_enabled(&self) -> bool {
        self.interrupts_enabled
    }

    /// The foreground indicator.
    pub closed spec fn led(&self) -> bool {
        self.led_on
    }

    /// The interrupt-source cell.
    pub closed spec fn line_opt(&self) -> Option<InterruptLine> {
        self.line@
    }

    /// The period cell.
    pub closed spec fn period_opt(&self) -> Option<PeriodState> {
        self.period@
    }

    /// The trigger-counter cell.
    pub closed spec fn count_opt(&self) -> Option<u16> {
        self.count@
    }

    /// Startup has completed: every cell the handler depends on holds a
    /// value, the period is above its floor, and the line is armed (or
    /// triggered and waiting for its clear).
    pub open spec fn initialized(&self) -> bool {
        &&& self.line_opt() matches Some(l) && l.wf() && (l.state() is Armed || l.state()
            is Triggered)
        &&& self.period_opt() matches Some(p) && p.wf()
        &&& self.count_opt() is Some
    }

    /// The abstract contents of the shared state.
    pub open spec fn model(&self) -> CoreModel
        recommends
            self.initialized(),
    {
        CoreModel {
            period_ms: self.period_opt()->0@,
            count: self.count_opt()->0 as int,
            pending: self.line_opt()->0.is_pending(),
            clear_writes: self.line_opt()->0.clear_writes(),
            led_on: self.led(),
        }
    }

    /// The machine right after power-on: interrupts are taken, nothing is
    /// initialized yet, the indicator is off.
    pub fn power_on() -> (r: Machine)
        ensures
            r.irq_enabled(),
            !r.led(),
            r.line_opt() is None,
            r.period_opt() is None,
            r.count_opt() is None,
    {
        Machine {
            interrupts_enabled: true,
            led_on: false,
            line: GuardedCell::empty(),
            period: GuardedCell::empty(),
            count: GuardedCell::empty(),
        }
    }

    /// Enter a critical section: disable interrupts on the single core
    /// and hand out the witness the guarded cells demand. Returns the
    /// witness and the interrupt-enable state to restore on exit.
    pub fn enter_critical(&mut self) -> (r: (CriticalSection, bool))
        ensures
            !final(self).irq_enabled(),
            r.1 == old(self).irq_enabled(),
            final(self).led() == old(self).led(),
            final(self).line_opt() == old(self).line_opt(),
            final(self).period_opt() == old(self).period_opt(),
            final(self).count_opt() == old(self).count_opt(),
    {
        let prev = self.interrupts_enabled;
        self.interrupts_enabled = false;
        (CriticalSection::issue(), prev)
    }

    /// Leave a critical section: consume the witness and restore the
    /// interrupt-enable state saved on entry, unconditionally.
    pub fn exit_critical(&mut self, cs: CriticalSection, restore: bool)
        ensures
            final(self).irq_enabled() == restore,
            final(self).led() == old(self).led(),
            final(self).line_opt() == old(self).line_opt(),
            final(self).period_opt() == old(self).period_opt(),
            final(self).count_opt() == old(self).count_opt(),
    {
        let _consumed = cs;
        self.interrupts_enabled = restore;
    }

    /// The startup write that populates every shared cell, inside one
    /// critical section, before the line is armed.
    pub fn init_shared(&mut self, line: InterruptLine, initial_period_ms: u16)
        requires
            line.wf(),
            line.state() is Configured,
            initial_period_ms >= PERIOD_FLOOR_MS,
        ensures
            final(self).irq_enabled() == old(self).irq_enabled(),
            final(self).led() == old(self).led(),
            final(self).line_opt() == Some(line),
            final(self).period_opt() matches Some(p) && p@ == initial_period_ms as int && p.wf(),
            final(self).count_opt() == Some(0u16),
    {
        let (cs, restore) = self.enter_critical();
        self.line.write(&cs, line);
        self.period.write(&cs, PeriodState::new(initial_period_ms));
        self.count.write(&cs, 0u16);
        self.exit_critical(cs, restore);
    }

    /// Arm the interrupt line through the shared cell: set its priority,
    /// clear any stale pending flag, and unmask it. After this, hardware
    /// edges reach the handler, which is why the cells must already be
    /// populated.
    pub fn arm_line(&mut self, priority: u8)
        requires
            old(self).line_opt() matches Some(l) && l.wf() && l.state() is Configured,
            old(self).period_opt() matches Some(p) && p.wf(),
            old(self).count_opt() is Some,
        ensures
            final(self).initialized(),
            final(self).irq_enabled() == old(self).irq_enabled(),
            final(self).led() == old(self).led(),
            final(self).line_opt() matches Some(l2) && l2.state() is Armed && l2.prio()
                == priority as int,
            final(self).period_opt() == old(self).period_opt(),
            final(self).count_opt() == old(self).count_opt(),
            final(self).model() == (CoreModel {
                period_ms: old(self).model().period_ms,
                count: old(self).model().count,
                pending: false,
                clear_writes: bump(old(self).line_opt()->0.clear_writes()),
                led_on: old(self).led(),
            }),
    {
        let (cs, restore) = self.enter_critical();
        let line_taken = self.line.take(&cs);
        let mut l = line_taken.unwrap();
        l.arm(priority, &cs);
        self.line.write(&cs, l);
        self.exit_critical(cs, restore);
    }

    /// A hardware edge arrives on the armed line and latches its pending
    /// flag. The register update is a single atomic hardware write; the
    /// model expresses that atomicity with the same mutual-exclusion
    /// witness the software sections use.
    pub fn hardware_edge(&mut self)
        requires
            old(self).initialized(),
        ensures
            final(self).initialized(),
            final(self).irq_enabled() == old(self).irq_enabled(),
            final(self).model() == with_pending(old(self).model()),
            final(self).line_opt()->0.state() is Triggered,
    {
        let (cs, restore) = self.enter_critical();
        let line_taken = self.line.take(&cs);
        let mut l = line_taken.unwrap();
        l.raise();
        self.line.write(&cs, l);
        self.exit_critical(cs, restore);
    }

    /// One complete handler invocation, run by the hardware when the
    /// armed line is pending and the core takes interrupts. Inside one
    /// critical section it halves the period, counts the trigger, and —
    /// unconditionally, exactly once — clears the pending flag, so the
    /// handler cannot re-enter the moment it returns.
    pub fn handler_invocation(&mut self)
        requires
            old(self).initialized(),
            old(self).irq_enabled(),
            old(self).model().pending,
        ensures
            final(self).initialized(),
            final(self).irq_enabled(),
            final(self).model() == handler_model(old(self).model()),
            !final(self).model().pending,
            final(self).line_opt()->0.state() is Armed,
    {
        let (cs, restore) = self.enter_critical();
        let period_taken = self.period.take(&cs);
        let mut p = period_taken.unwrap();
        p.halve();
        self.period.write(&cs, p);
        let count_taken = self.count.read(&cs);
        let c = count_taken.unwrap();
        let bumped: u16 = if c < u16::MAX {
            c + 1
        } else {
            c
        };
        self.count.write(&cs, bumped);
        let line_taken = self.line.take(&cs);
        let mut l = line_taken.unwrap();
        l.clear_pending(&cs);
        self.line.write(&cs, l);
        self.exit_critical(cs, restore);
    }

    /// One foreground loop iteration: toggle the indicator, then read the
    /// period inside a critical section. Returns the period the wait will
    /// use.
    pub fn foreground_tick(&mut self) -> (r: u16)
        requires
            old(self).initialized(),
            old(self).irq_enabled(),
        ensures
            final(self).initialized(),
            final(self).irq_enabled(),
            final(self).model() == step_model(old(self).model(), MachineEvent::LoopTick),
            r as int == old(self).model().period_ms,
    {
        self.led_on = !self.led_on;
        let (cs, restore) = self.enter_critical();
        let period_taken = self.period.take(&cs);
        let p = period_taken.unwrap();
        let ms = p.get();
        self.period.write(&cs, p);
        self.exit_critical(cs, restore);
        ms
    }

    /// Feed the machine one event. A hardware edge immediately runs the
    /// handler to completion (single core, interrupts enabled between
    /// sections); a loop tick returns the period the foreground observed.
    pub fn step(&mut self, ev: MachineEvent) -> (r: Option<u16>)
        requires
            old(self).initialized(),
            old(self).irq_enabled(),
        ensures
            final(self).initialized(),
            final(self).irq_enabled(),
            final(self).model() == step_model(old(self).model(), ev),
            (match r {
                Some(w) => observed(old(self).model(), ev) == Some(w as int),
                None => observed(old(self).model(), ev) is None,
            }),
    {
        match ev {
            MachineEvent::Edge => {
                self.hardware_edge();
                self.handler_invocation();
                None
            },
            MachineEvent::LoopTick => Some(self.foreground_tick()),
        }
    }

    /// Feed the machine a whole sequence of events — a simulated
    /// single-core schedule interleaving handler invocations and
    /// foreground iterations at arbitrary points between critical
    /// sections — and collect every value the foreground observed. The
    /// result is exactly what the abstract transition system prescribes
    /// for that schedule.
    pub fn run_events(&mut self, events: &Vec<MachineEvent>) -> (reads: Vec<u16>)
        requires
            old(self).initialized(),
            old(self).irq_enabled(),
        ensures
            final(self).initialized(),
            final(self).irq_enabled(),
            final(self).model() == run_model(old(self).model(), events@),
            reads@.map_values(|w: u16| w as int) == observations(old(self).model(), events@),
    {
        let ghost m0 = self.model();
        let mut reads: Vec<u16> = Vec::new();
        let mut idx: usize = 0;
        proof {
            assert(events@.take(0) =~= Seq::<MachineEvent>::empty());
        }
        while idx < events.len()
            invariant
                self.initialized(),
                self.irq_enabled(),
                idx <= events@.len(),
                self.model() == run_model(m0, events@.take(idx as int)),
                reads@.map_values(|w: u16| w as int) == observations(m0, events@.take(idx as int)),
            decreases events@.len() - idx,
        {
            let ev = events[idx];
            let ghost prefix = events@.take(idx as int);
            let ghost reads_before = reads@;
            let r = self.step(ev);
            match r {
                Some(w) => {
                    reads.push(w);
                },
                None => {},
            }
            proof {
                assert(prefix.push(ev) =~= events@.take(idx as int + 1));
                lemma_run_model_snoc(m0, prefix, ev);
                match r {
                    Some(w) => {
                        assert(reads@.map_values(|x: u16| x as int) =~= reads_before.map_values(
                            |x: u16| x as int,
                        ) + seq![w as int]);
                    },
                    None => {},
                }
            }
            idx = idx + 1;
        }
        proof {
            assert(events@.take(events@.len() as int) =~= events@);
        }
        reads
    }

    /// Read the trigger counter from the foreground, inside a critical
    /// section.
    pub fn read_count(&mut self) -> (r: u16)
        requires
            old(self).initialized(),
            old(self).irq_enabled(),
        ensures
            final(self).irq_enabled() == old(self).irq_enabled(),
            final(self).led() == old(self).led(),
            final(self).line_opt() == old(self).line_opt(),
            final(self).period_opt() == old(self).period_opt(),
            final(self).count_opt() == old(self).count_opt(),
            r as int == old(self).model().count,
    {
        let (cs, restore) = self.enter_critical();
        let count_read = self.count.read(&cs);
        let c = count_read.unwrap();
        self.exit_critical(cs, restore);
        c
    }

    /// Read the number of pending-clear writes from the foreground,
    /// inside a critical section.
    pub fn read_clear_writes(&mut self) -> (r: u64)
        requires
            old(self).initialized(),
            old(self).irq_enabled(),
        ensures
            final(self).irq_enabled() == old(self).irq_enabled(),
            final(self).led() == old(self).led(),
            final(self).line_opt() == old(self).line_opt(),
            final(self).period_opt() == old(self).period_opt(),
            final(self).count_opt() == old(self).count_opt(),
            r as int == old(self).model().clear_writes,
    {
        let (cs, restore) = self.enter_critical();
        let writes: u64;
        match self.line.inspect(&cs) {
            Some(l) => {
                writes = l.clear_write_count(&cs);
            },
            None => {
                proof {
                    assert(false);
                }
                writes = 0;
            },
        }
        self.exit_critical(cs, restore);
        writes
    }

    /// Read the pending flag from the foreground, inside a critical
    /// section.
    pub fn read_pending(&mut self) -> (r: bool)
        requires
            old(self).initialized(),
            old(self).irq_enabled(),
        ensures
            final(self).irq_enabled() == old(self).irq_enabled(),
            final(self).led() == old(self).led(),
            final(self).line_opt() == old(self).line_opt(),
            final(self).period_opt() == old(self).period_opt(),
            final(self).count_opt() == old(self).count_opt(),
            r == old(self).model().pending,
    {
        let (cs, restore) = self.enter_critical();
        let pending: bool;
        match self.line.inspect(&cs) {
            Some(l) => {
                pending = l.pending_now(&cs);
            },
            None => {
                proof {
                    assert(false);
                }
                pending = false;
            },
        }
        self.exit_critical(cs, restore);
        pending
    }

    /// Whether the core currently takes interrupts; what a harness checks
    /// around a critical section.
    pub fn interrupts_taken(&self) -> (r: bool)
        ensures
            r == self.irq_enabled(),
    {
        self.interrupts_enabled
    }

    /// Whether the indicator is on.
    pub fn led_is_on(&self) -> (r: bool)
        ensures
            r == self.led(),
    {
        self.led_on
    }
}

} // verus!
