//! The blink period shared between the foreground loop and the interrupt
//! handler.
//!
//! Every hardware trigger halves the period; the foreground loop reads it
//! once per iteration to decide how long to wait. Halving is clamped to an
//! explicit floor so the period stays a positive duration no matter how many
//! triggers arrive.

use vstd::prelude::*;

verus! {

/// The smallest period the handler may leave behind, in milliseconds.
/// Repeated halving converges to this value instead of degenerating to a
/// zero-length delay.
pub const PERIOD_FLOOR_MS: u16 = 1;

/// Clamp a candidate period to the floor.
pub open spec fn clamp_to_floor(p: int) -> int {
    if p < PERIOD_FLOOR_MS as int {
        PERIOD_FLOOR_MS as int
    } else {
        p
    }
}

/// The value one halving step leaves behind: half the period, clamped to
/// the floor.
pub open spec fn halved(p: int) -> int {
    clamp_to_floor(p / 2)
}

/// The period left after `k` halving steps starting from `initial`.
pub open spec fn period_after(initial: int, k: nat) -> int
    decreases k,
{
    if k == 0 {
        initial
    } else {
        halved(period_after(initial, (k - 1) as nat))
    }
}

/// A positive blink period in milliseconds.
///
/// The invariant [`PeriodState::wf`] keeps the value at or above
/// [`PERIOD_FLOOR_MS`], so it never reaches zero.
pub struct PeriodState {
    ms: u16,
}

impl View for PeriodState {
    type V = int;

    closed spec fn view(&self) -> int {
        self.ms as int
    }
}

impl PeriodState {
    /// The period never sits below the floor, hence never at zero.
    pub open spec fn wf(&self) -> bool {
        self@ >= PERIOD_FLOOR_MS as int
    }

    /// Start from a configured initial period.
    pub fn new(initial_ms: u16) -> (r: Self)
        requires
            initial_ms >= PERIOD_FLOOR_MS,
        ensures
            r@ == initial_ms as int,
            r.wf(),
    {
        PeriodState { ms: initial_ms }
    }

    /// The current period in milliseconds.
    pub fn get(&self) -> (r: u16)
        ensures
            r as int == self@,
    {
        self.ms
    }

    /// One trigger's worth of shrinking: halve the period, clamped to the
    /// floor.
    pub fn halve(&mut self)
        requires
            old(self).wf(),
        ensures
            final(self)@ == halved(old(self)@),
            final(self).wf(),
    {
        let half = self.ms / 2;
        self.ms = if half < PERIOD_FLOOR_MS {
            PERIOD_FLOOR_MS
        } else {
            half
        };
    }
}

/// After any number of halving steps from a well-formed start, the period
/// is still at or above the floor — in particular it is never zero or
/// negative.
pub proof fn lemma_period_stays_positive(initial: int, k: nat)
    requires
        initial >= PERIOD_FLOOR_MS as int,
    ensures
        period_after(initial, k) >= PERIOD_FLOOR_MS as int,
        period_after(initial, k) > 0,
    decreases k,
{
    if k > 0 {
        lemma_period_stays_positive(initial, (k - 1) as nat);
    }
}

/// Halving composes from either end: one step first and `k` after is the
/// same as `k + 1` steps.
pub proof fn lemma_period_after_shift(initial: int, k: nat)
    ensures
        period_after(halved(initial), k) == period_after(initial, k + 1),
    decreases k,
{
    if k == 0 {
        assert(period_after(initial, 1) == halved(period_after(initial, 0)));
    } else {
        lemma_period_after_shift(initial, (k - 1) as nat);
        assert(period_after(halved(initial), k) == halved(
            period_after(halved(initial), (k - 1) as nat),
        ));
        assert(period_after(initial, k + 1) == halved(period_after(initial, k)));
    }
}

/// The closed form of repeated halving: after `k` steps the period equals
/// `initial / 2^k`, clamped to the floor.
pub proof fn lemma_period_closed_form(initial: int, k: nat)
    requires
        initial >= PERIOD_FLOOR_MS as int,
    ensures
        period_after(initial, k) == clamp_to_floor(
            initial / vstd::arithmetic::power2::pow2(k) as int,
        ),
    decreases k,
{
    if k == 0 {
        vstd::arithmetic::power::lemma_pow0(2);
        assert(vstd::arithmetic::power2::pow2(0) == 1);
        assert(initial / 1 == initial) by {
            vstd::arithmetic::div_mod::lemma_div_basics_2(initial);
        }
    } else {
        let km1 = (k - 1) as nat;
        let p = vstd::arithmetic::power2::pow2(km1) as int;
        lemma_period_closed_form(initial, km1);
        vstd::arithmetic::power2::lemma_pow2_pos(km1);
        vstd::arithmetic::power2::lemma_pow2_unfold(k);
        vstd::arithmetic::div_mod::lemma_div_denominator(initial, p, 2);
        assert(p * 2 == vstd::arithmetic::power2::pow2(k) as int);
        if initial / p >= PERIOD_FLOOR_MS as int {
            assert(period_after(initial, k) == clamp_to_floor((initial / p) / 2));
        } else {
            // The quotient already fell below the floor one step earlier,
            // so both sides are the floor: the deeper quotient is no larger.
            vstd::arithmetic::div_mod::lemma_div_is_ordered_by_denominator(initial, p, p * 2);
            vstd::arithmetic::div_mod::lemma_div_pos_is_pos(initial, p * 2);
            assert((initial / p) / 2 == initial / (p * 2));
        }
    }
}

} // verus!
