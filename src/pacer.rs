//! Frame pacing with drift compensation.
//!
//! Time is counted in whole microseconds of a monotonic clock, the frame period
//! in whole milliseconds, and a suspension in whole milliseconds as well.
//!
//! The pacer keeps the frame boundary that the previous cycle counts as its end. A
//! cycle suspends until one period after it, rounded down to whole milliseconds.
//! A cycle that ends within the millisecond the rounding can cost, at or before its
//! target, counts from that target, so the dropped sub-millisecond remainder is
//! absorbed into the next cycle instead of accumulating. A cycle that ends after its
//! target counts from the clock reading taken after the suspension, so a late frame
//! is never followed by a short one.

use vstd::prelude::*;

verus! {

/// Microseconds in one millisecond.
pub const MICROS_PER_MILLI: u64 = 1000;

/// Highest frame rate whose period, rounded to the nearest millisecond with halves
/// rounded up, is still at least one millisecond.
pub const MAX_FRAME_RATE: usize = 2000;

/// Latest clock reading, in microseconds, that a pacer accepts; boundaries past it
/// still fit in 64 bits.
pub const MAX_CLOCK_US: u64 = 0x4000_0000_0000_0000;

/// The frame period in milliseconds for a rate in frames per second: 1000 / rate
/// rounded to the nearest integer, halves rounded up.
pub open spec fn period_of(rate: int) -> int {
    (2000 + rate) / (2 * rate)
}

/// A rate is accepted when it is positive and its rounded period is positive.
pub open spec fn rate_accepted(rate: int) -> bool {
    0 < rate && period_of(rate) > 0
}

/// The abstract state of a pacer: the period in milliseconds and the frame
/// boundary, in microseconds, that the previous cycle counts as its end.
pub struct PacerState {
    pub period: nat,
    pub last_tick: nat,
}

impl PacerState {
    pub open spec fn wf(self) -> bool {
        &&& 1 <= self.period <= 1000
        &&& self.last_tick < MAX_CLOCK_US + 1000
    }

    /// The boundary the current cycle aims at: one period after the previous one.
    pub open spec fn target(self) -> nat {
        self.last_tick + self.period * 1000
    }

    /// Whole milliseconds to suspend at `now`: the time left until the target
    /// boundary, with the sub-millisecond remainder dropped.
    pub open spec fn delay(self, now: nat) -> nat {
        if now < self.target() {
            ((self.target() - now) / 1000) as nat
        } else {
            0
        }
    }

    /// Whether a cycle ending at `now` is on time: less than a millisecond before
    /// its target, which is all the rounding of the delay can cost, and not after it.
    pub open spec fn on_time(self, now: nat) -> bool {
        self.target() < now + 1000 && now <= self.target()
    }

    /// The state once a cycle has ended at `now`: an on-time cycle counts as ending
    /// at its target; any other restarts the count from `now`.
    pub open spec fn completed(self, now: nat) -> PacerState {
        PacerState {
            last_tick: if self.on_time(now) {
                self.target()
            } else {
                now
            },
            ..self
        }
    }
}

/// One pacing cycle: it starts at `call`, suspends at least the delay the pacer
/// asks for at `call`, and ends at `end`.
pub open spec fn paced_cycle(p: PacerState, call: nat, end: nat) -> bool {
    call + p.delay(call) * 1000 <= end
}

/// A run of pacing cycles, each given by its start and its end, each ending the cycle
/// the next one counts from.
pub open spec fn paced_run(p: PacerState, cycles: Seq<(nat, nat)>) -> bool
    decreases cycles.len(),
{
    if cycles.len() == 0 {
        true
    } else {
        paced_cycle(p, cycles[0].0, cycles[0].1) && paced_run(
            p.completed(cycles[0].1),
            cycles.drop_first(),
        )
    }
}

/// The clock reading that ends a run of cycles.
pub open spec fn run_end(p: PacerState, cycles: Seq<(nat, nat)>) -> nat {
    if cycles.len() == 0 {
        p.last_tick
    } else {
        cycles.last().1
    }
}

/// The pacer state after a run of cycles.
pub open spec fn run_state(p: PacerState, cycles: Seq<(nat, nat)>) -> PacerState
    decreases cycles.len(),
{
    if cycles.len() == 0 {
        p
    } else {
        run_state(p.completed(cycles[0].1), cycles.drop_first())
    }
}

/// Spacing of one cycle: it ends no sooner than 999 microseconds before its target
/// boundary; the next cycle counts from a boundary at least one period after the
/// previous one, and no earlier than the cycle's end.
pub proof fn lemma_cycle_spacing(p: PacerState, call: nat, end: nat)
    requires
        paced_cycle(p, call, end),
    ensures
        end + 999 >= p.target(),
        p.completed(end).last_tick >= p.target(),
        p.completed(end).last_tick >= end,
{
    if call < p.target() {
        let x = (p.target() - call) as int;
        vstd::arithmetic::div_mod::lemma_fundamental_div_mod(x, 1000);
        vstd::arithmetic::div_mod::lemma_mod_bound(x, 1000);
        assert(p.delay(call) * 1000 > x - 1000);
    }
}

/// Frame intervals: whether a frame ended on time or late, the frame that follows
/// it, started after any amount of work, ends at least one period less 999
/// microseconds after it.
pub proof fn lemma_frame_interval(p: PacerState, call1: nat, end1: nat, call2: nat, end2: nat)
    requires
        paced_cycle(p, call1, end1),
        end1 <= call2,
        paced_cycle(p.completed(end1), call2, end2),
    ensures
        end2 + 999 >= end1 + p.period * 1000,
{
    lemma_cycle_spacing(p, call1, end1);
    lemma_cycle_spacing(p.completed(end1), call2, end2);
}

/// No drift accumulates: a run of `n` cycles ends no sooner than `n` whole periods
/// after the boundary it starts from, less one fixed tolerance of 999 microseconds,
/// however many cycles there are.
pub proof fn lemma_no_drift(p: PacerState, cycles: Seq<(nat, nat)>)
    requires
        paced_run(p, cycles),
    ensures
        run_end(p, cycles) + 999 >= p.last_tick + cycles.len() * (p.period * 1000),
        run_state(p, cycles).last_tick >= p.last_tick + cycles.len() * (p.period * 1000),
    decreases cycles.len(),
{
    if cycles.len() > 0 {
        let q = p.completed(cycles[0].1);
        let rest = cycles.drop_first();
        lemma_cycle_spacing(p, cycles[0].0, cycles[0].1);
        lemma_no_drift(q, rest);
        if rest.len() > 0 {
            assert(rest.last() == cycles.last());
        }
        let n = cycles.len() as int;
        let step = p.period * 1000;
        assert(n * step == step + (n - 1) * step) by (nonlinear_arith);
    }
}

/// Computes how long the frame loop suspends before each frame boundary.
pub struct FramePacer {
    period_ms: u64,
    last_tick_us: u64,
}

impl View for FramePacer {
    type V = PacerState;

    closed spec fn view(&self) -> PacerState {
        PacerState { period: self.period_ms as nat, last_tick: self.last_tick_us as nat }
    }
}

/// Spacing of frame returns: after a frame that ended at `first_end`, `n` further
/// paced cycles end no sooner than `n` whole periods after it, less one fixed
/// tolerance of 999 microseconds.
pub proof fn lemma_returns_spacing(p: PacerState, call: nat, first_end: nat, cycles: Seq<(nat, nat)>)
    requires
        paced_cycle(p, call, first_end),
        paced_run(p.completed(first_end), cycles),
    ensures
        run_end(p.completed(first_end), cycles) + 999 >= first_end + cycles.len() * (p.period
            * 1000),
{
    lemma_cycle_spacing(p, call, first_end);
    lemma_no_drift(p.completed(first_end), cycles);
}

proof fn lemma_period_bounds(rate: int)
    requires
        0 < rate,
    ensures
        period_of(rate) > 0 <==> rate <= 2000,
        period_of(rate) <= 1000,
        period_of(rate) * (2 * rate) <= 2000 + rate,
        2000 + rate < (period_of(rate) + 1) * (2 * rate),
{
    let d = 2 * rate;
    let n = 2000 + rate;
    let q = n / d;
    vstd::arithmetic::div_mod::lemma_fundamental_div_mod(n, d);
    vstd::arithmetic::div_mod::lemma_mod_bound(n, d);
    assert(q * d <= n && n < (q + 1) * d) by (nonlinear_arith)
        requires n == d * q + n % d, 0 <= n % d < d;
    assert(q > 0 <==> rate <= 2000) by (nonlinear_arith)
        requires q * d <= n, n < (q + 1) * d, d == 2 * rate, n == 2000 + rate, 0 < rate;
    assert(q <= 1000) by (nonlinear_arith)
        requires q * d <= n, d == 2 * rate, n == 2000 + rate, 0 < rate;
}

/// The frame period for `rate` frames per second, or `None` where the rate is zero
/// or so high that its rounded period is zero.
pub fn period_for_rate(rate: usize) -> (r: Option<u64>)
    ensures
        r is Some <==> rate_accepted(rate as int),
        r is Some <==> 1 <= rate <= MAX_FRAME_RATE,
        r matches Some(p) ==> p == period_of(rate as int) && 1 <= p <= 1000,
        r matches Some(p) ==> p * (2 * rate) <= 2000 + rate && 2000 + rate < (p + 1) * (2 * rate),
{
    if rate == 0 {
        return None;
    }
    proof {
        lemma_period_bounds(rate as int);
    }
    if rate > MAX_FRAME_RATE {
        None
    } else {
        let r64 = rate as u64;
        Some((2000 + r64) / (2 * r64))
    }
}

impl FramePacer {
    /// A pacer for `rate` frames per second whose first cycle counts from `now_us`.
    pub fn new(rate: usize, now_us: u64) -> (r: FramePacer)
        requires
            rate_accepted(rate as int),
            now_us <= MAX_CLOCK_US,
        ensures
            r@.wf(),
            r@ == (PacerState { period: period_of(rate as int) as nat, last_tick: now_us as nat }),
    {
        let p = period_for_rate(rate);
        match p {
            Some(period_ms) => FramePacer { period_ms, last_tick_us: now_us },
            None => {
                proof {
                    assert(false);
                }
                FramePacer { period_ms: 1, last_tick_us: now_us }
            },
        }
    }

    /// The frame period in milliseconds.
    pub fn period(&self) -> (r: u64)
        ensures
            r == self@.period,
    {
        self.period_ms
    }

    /// The boundary, in microseconds, that the previous cycle counts as its end.
    pub fn last_tick(&self) -> (r: u64)
        ensures
            r == self@.last_tick,
    {
        self.last_tick_us
    }

    /// Milliseconds to suspend when a cycle starts at `now_us`.
    pub fn delay_ms(&self, now_us: u64) -> (r: u64)
        requires
            self@.wf(),
        ensures
            r == self@.delay(now_us as nat),
    {
        let target: u64 = self.last_tick_us + self.period_ms * MICROS_PER_MILLI;
        if now_us < target {
            (target - now_us) / MICROS_PER_MILLI
        } else {
            0
        }
    }

    /// Ends the current cycle at `now_us`, read once the suspension is over.
    pub fn complete(&mut self, now_us: u64)
        requires
            old(self)@.wf(),
            now_us <= MAX_CLOCK_US,
        ensures
            final(self)@ == old(self)@.completed(now_us as nat),
            final(self)@.wf(),
    {
        let period_us: u64 = self.period_ms * MICROS_PER_MILLI;
        let target: u64 = self.last_tick_us + period_us;
        if target < now_us + MICROS_PER_MILLI && now_us <= target {
            self.last_tick_us = target;
        } else {
            self.last_tick_us = now_us;
        }
    }

    /// Restarts the count from `now_us`, as if a cycle had just ended there.
    pub fn restart(&mut self, now_us: u64)
        requires
            now_us <= MAX_CLOCK_US,
        ensures
            final(self)@ == (PacerState { last_tick: now_us as nat, ..old(self)@ }),
    {
        self.last_tick_us = now_us;
    }
}

} // verus!
