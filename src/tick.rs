//! The fixed-timestep schedule: how many simulation ticks are due
//! after a given span of wall-clock time.

use vstd::prelude::*;

verus! {

/// Simulation ticks per second.
pub const TICKS_SEC: u32 = 45;

/// Nanoseconds per second.
pub const NANOS_PER_SEC: u64 = 1000000000;

/// The number of whole ticks that fit in `elapsed_nanos` nanoseconds.
pub open spec fn ticks_in(elapsed_nanos: nat) -> nat {
    elapsed_nanos * (TICKS_SEC as nat) / (NANOS_PER_SEC as nat)
}

/// The number of nanoseconds in `secs` seconds and `subsec_nanos` nanoseconds.
pub open spec fn span_nanos(secs: nat, subsec_nanos: nat) -> nat {
    secs * (NANOS_PER_SEC as nat) + subsec_nanos
}

/// The largest whole-second count for which `ticks_elapsed` can
/// represent its result.
pub const MAX_SECS: u64 = 409927646082434479;

/// The number of whole ticks that fit in a span of `secs` seconds and
/// `subsec_nanos` nanoseconds.
pub fn ticks_elapsed(secs: u64, subsec_nanos: u32) -> (r: u64)
    requires
        subsec_nanos < NANOS_PER_SEC,
        secs <= MAX_SECS,
    ensures
        r == ticks_in(span_nanos(secs as nat, subsec_nanos as nat)),
{
    let whole: u64 = secs * (TICKS_SEC as u64);
    let part: u64 = (subsec_nanos as u64) * (TICKS_SEC as u64) / NANOS_PER_SEC;
    proof {
        let s = secs as int;
        let n = subsec_nanos as int;
        let d = NANOS_PER_SEC as int;
        assert((s * d + n) * 45 == (s * 45) * d + n * 45) by (nonlinear_arith);
        vstd::arithmetic::div_mod::lemma_hoist_over_denominator(n * 45, s * 45, d as nat);
        assert(n * 45 < d * 45) by (nonlinear_arith)
            requires
                0 <= n < d,
        ;
        vstd::arithmetic::div_mod::lemma_multiply_divide_lt(n * 45, d, 45);
        assert(s * 45 <= 18446744073709551555) by (nonlinear_arith)
            requires
                0 <= s <= MAX_SECS,
        ;
    }
    whole + part
}

/// The number of ticks newly due at tick `now` when `last` ticks have
/// been run: none where `now` does not pass `last`.
pub open spec fn ticks_due(last: nat, now: nat) -> nat {
    if last < now { (now - last) as nat } else { 0 }
}

/// The number of ticks run once those due at tick `now` have been run.
pub open spec fn tick_after(last: nat, now: nat) -> nat {
    if last < now { now } else { last }
}

/// A longer span never holds fewer ticks.
pub proof fn ticks_in_monotonic(a: nat, b: nat)
    requires
        a <= b,
    ensures
        ticks_in(a) <= ticks_in(b),
{
    assert(a * 45 <= b * 45) by (nonlinear_arith)
        requires
            a <= b,
    ;
    vstd::arithmetic::div_mod::lemma_div_is_ordered((a * 45) as int, (b * 45) as int, NANOS_PER_SEC as int);
}

/// Advancing the clock to one time and then to a later one runs as many
/// ticks in all as advancing it to the later time at once: the frames at
/// which the clock is read do not change how many ticks are run.
pub proof fn advance_in_steps(last: nat, first: nat, second: nat)
    requires
        first <= second,
    ensures
        ticks_due(last, ticks_in(first)) + ticks_due(
            tick_after(last, ticks_in(first)),
            ticks_in(second),
        ) == ticks_due(last, ticks_in(second)),
        tick_after(tick_after(last, ticks_in(first)), ticks_in(second)) == tick_after(
            last,
            ticks_in(second),
        ),
{
    ticks_in_monotonic(first, second);
}

/// Keeps track of which ticks have been run, so that each tick since the
/// start is run exactly once however the frames fall.
#[derive(Debug, Clone, Copy, PartialEq, Eq)]
pub struct TickClock {
    last_tick: u64,
}

impl TickClock {
    /// A clock at the start, with no tick run yet.
    pub fn new() -> (r: TickClock)
        ensures
            r.spec_last_tick() == 0,
    {
        TickClock { last_tick: 0 }
    }

    /// The number of ticks run so far.
    pub closed spec fn spec_last_tick(&self) -> nat {
        self.last_tick as nat
    }

    /// The number of ticks run so far.
    pub fn last_tick(&self) -> (r: u64)
        ensures
            r == self.spec_last_tick(),
    {
        self.last_tick
    }

    /// Given the time elapsed since the start, returns how many ticks are
    /// newly due and records them as run. Time that does not reach a new
    /// tick yields none.
    pub fn advance(&mut self, secs: u64, subsec_nanos: u32) -> (due: u64)
        requires
            subsec_nanos < NANOS_PER_SEC,
            secs <= MAX_SECS,
        ensures
            ({
                let now = ticks_in(span_nanos(secs as nat, subsec_nanos as nat));
                &&& due == ticks_due(old(self).spec_last_tick(), now)
                &&& final(self).spec_last_tick() == tick_after(old(self).spec_last_tick(), now)
            }),
    {
        let now = ticks_elapsed(secs, subsec_nanos);
        if self.last_tick < now {
            let due = now - self.last_tick;
            self.last_tick = now;
            due
        } else {
            0
        }
    }
}

} // verus!
