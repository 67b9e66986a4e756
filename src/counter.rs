//! The reaction counter: a value that moves one step round a cycle at each tick
//! and counts a miss each time it wraps back to zero. A run is ticked by its
//! owner until a stop is observed; stopping consumes the run and hands back its
//! final state, so no tick can follow a stop and a run cannot be stopped twice.

use vstd::prelude::*;
use vstd::arithmetic::div_mod::lemma_fundamental_div_mod_converse;

verus! {

/// Position of the counter and the number of times it has wrapped.
#[derive(Clone, Copy, Debug, PartialEq, Eq, Structural)]
pub struct CounterState {
    pub value: u32,
    pub miss: u32,
}

/// One tick on a cycle of `cycle` positions, on `(value, miss)`: the value moves
/// one step, and a wrap to zero counts a miss.
pub open spec fn tick_rule(s: (int, int), cycle: int) -> (int, int) {
    let v = (s.0 + 1) % cycle;
    (v, if v == 0 { s.1 + 1 } else { s.1 })
}

/// `(value, miss)` after `ticks` ticks from `(0, 0)`.
pub open spec fn state_after(ticks: nat, cycle: int) -> (int, int)
    decreases ticks,
{
    if ticks == 0 {
        (0, 0)
    } else {
        tick_rule(state_after((ticks - 1) as nat, cycle), cycle)
    }
}

/// One tick takes the closed form of `t` ticks to that of `t + 1`.
proof fn lemma_tick_closed_form(t: int, cycle: int)
    requires
        t >= 0,
        cycle > 0,
    ensures
        tick_rule((t % cycle, t / cycle), cycle) == ((t + 1) % cycle, (t + 1) / cycle),
{
    let v = t % cycle;
    let q = t / cycle;
    assert(t == q * cycle + v) by {
        vstd::arithmetic::div_mod::lemma_fundamental_div_mod(t, cycle);
        vstd::arithmetic::mul::lemma_mul_is_commutative(q, cycle);
    }
    if v + 1 < cycle {
        lemma_fundamental_div_mod_converse(t + 1, cycle, q, v + 1);
        vstd::arithmetic::div_mod::lemma_small_mod((v + 1) as nat, cycle as nat);
    } else {
        assert(t + 1 == (q + 1) * cycle + 0) by (nonlinear_arith)
            requires
                t == q * cycle + v,
                v + 1 == cycle,
        ;
        lemma_fundamental_div_mod_converse(t + 1, cycle, q + 1, 0);
        vstd::arithmetic::div_mod::lemma_mod_self_0(cycle);
    }
}

/// The counter's state after any number of ticks from zero: its value is the
/// number of ticks modulo the cycle length, and its miss count is the number of
/// ticks divided by the cycle length, rounded down.
pub proof fn lemma_state_after_ticks(ticks: nat, cycle: int)
    requires
        cycle > 0,
    ensures
        state_after(ticks, cycle) == ((ticks as int) % cycle, (ticks as int) / cycle),
    decreases ticks,
{
    if ticks == 0 {
        assert(0int % cycle == 0 && 0int / cycle == 0) by {
            lemma_fundamental_div_mod_converse(0, cycle, 0, 0);
        }
    } else {
        lemma_state_after_ticks((ticks - 1) as nat, cycle);
        lemma_tick_closed_form(ticks - 1, cycle);
    }
}

/// A counter that ticks every `speed` milliseconds round a cycle of
/// `cycle_length` positions. The usual cycle has 100 positions, 0 to 99; a
/// cycle of 101 lets the value reach 100, which scoring counts as the same
/// point as 0. Which of the two a game should use is left to its maker, so the
/// length is a parameter.
pub struct Counter {
    /// Pause between two ticks, in milliseconds.
    pub speed: u32,
    /// Number of positions on the cycle.
    pub cycle_length: u32,
}

/// A counter in motion.
pub struct CounterRun {
    state: CounterState,
    cycle_length: u32,
}

/// What a run becomes after one step.
pub enum CounterStep {
    /// No stop was observed: the run goes on.
    Running(CounterRun),
    /// A stop was observed: the final state.
    Stopped(CounterState),
}

impl Counter {
    /// A counter with the given pause between ticks, on a cycle of 100 positions.
    pub fn new(speed: u32) -> (r: Self)
        ensures
            r.speed == speed,
            r.cycle_length == 100,
    {
        Counter { speed, cycle_length: 100 }
    }

    /// A counter with the given pause between ticks and cycle length.
    pub fn with_cycle_length(speed: u32, cycle_length: u32) -> (r: Self)
        ensures
            r.speed == speed,
            r.cycle_length == cycle_length,
    {
        Counter { speed, cycle_length }
    }

    /// Starts a run at value 0 with no miss.
    pub fn start(&self) -> (r: CounterRun)
        requires
            self.cycle_length > 0,
        ensures
            r.wf(),
            r.cycle() == self.cycle_length,
            r.state() == (CounterState { value: 0, miss: 0 }),
            r.ticks() == 0,
    {
        CounterRun { state: CounterState { value: 0, miss: 0 }, cycle_length: self.cycle_length }
    }
}

impl CounterRun {
    /// The run's current state.
    pub closed spec fn state(self) -> CounterState {
        self.state
    }

    /// The run's cycle length.
    pub closed spec fn cycle(self) -> int {
        self.cycle_length as int
    }

    /// The cycle is not empty and the value lies on it.
    pub closed spec fn wf(self) -> bool {
        self.cycle_length > 0 && self.state.value < self.cycle_length
    }

    /// Number of ticks since the start that the state stands for.
    pub open spec fn ticks(self) -> int {
        self.state().miss * self.cycle() + self.state().value
    }

    /// The next tick would wrap past the largest miss count a `u32` holds.
    pub open spec fn exhausted(self) -> bool {
        self.state().miss == u32::MAX && self.state().value + 1 == self.cycle()
    }

    /// The current state, for display.
    pub fn current(&self) -> (r: CounterState)
        ensures
            r == self.state(),
    {
        self.state
    }

    /// The cycle length of this run.
    pub fn cycle_length(&self) -> (r: u32)
        ensures
            r == self.cycle(),
    {
        self.cycle_length
    }

    /// Whether one more tick would overflow the miss count.
    pub fn is_exhausted(&self) -> (r: bool)
        requires
            self.wf(),
        ensures
            r == self.exhausted(),
    {
        self.state.miss == u32::MAX && self.state.value + 1 == self.cycle_length
    }

    /// Moves the value one step round the cycle; a wrap to zero counts a miss.
    pub fn tick(&mut self)
        requires
            old(self).wf(),
            !old(self).exhausted(),
        ensures
            final(self).wf(),
            final(self).cycle() == old(self).cycle(),
            (final(self).state().value as int, final(self).state().miss as int) == tick_rule(
                (old(self).state().value as int, old(self).state().miss as int),
                old(self).cycle(),
            ),
            final(self).ticks() == old(self).ticks() + 1,
    {
        let ghost c = self.cycle_length as int;
        let ghost v0 = self.state.value as int;
        let ghost m0 = self.state.miss as int;
        let next = self.state.value + 1;
        if next == self.cycle_length {
            self.state.value = 0;
            self.state.miss = self.state.miss + 1;
            proof {
                vstd::arithmetic::div_mod::lemma_mod_self_0(c);
                assert((m0 + 1) * c == m0 * c + c) by (nonlinear_arith);
            }
        } else {
            self.state.value = next;
            proof {
                vstd::arithmetic::div_mod::lemma_small_mod((v0 + 1) as nat, c as nat);
            }
        }
    }

    /// Ends the run and hands back its final state: the value is the number of
    /// ticks modulo the cycle length, the miss count that number divided by it.
    pub fn stop(self) -> (r: CounterState)
        requires
            self.wf(),
        ensures
            r == self.state(),
            r.value == self.ticks() % self.cycle(),
            r.miss == self.ticks() / self.cycle(),
    {
        proof {
            lemma_fundamental_div_mod_converse(
                self.ticks(),
                self.cycle(),
                self.state.miss as int,
                self.state.value as int,
            );
        }
        self.state
    }

    /// One step of a run: a requested stop ends it with its state untouched;
    /// otherwise it ticks once, unless its miss count is spent, in which case it
    /// holds where it is.
    pub fn step(self, stop_requested: bool) -> (r: CounterStep)
        requires
            self.wf(),
        ensures
            stop_requested <==> r is Stopped,
            r matches CounterStep::Stopped(s) ==> s == self.state(),
            r matches CounterStep::Running(next) ==> {
                &&& next.wf()
                &&& next.cycle() == self.cycle()
                &&& self.exhausted() ==> next.state() == self.state()
                &&& !self.exhausted() ==> next.ticks() == self.ticks() + 1
                &&& !self.exhausted() ==> (next.state().value as int, next.state().miss as int)
                    == tick_rule(
                    (self.state().value as int, self.state().miss as int),
                    self.cycle(),
                )
            },
    {
        if stop_requested {
            CounterStep::Stopped(self.stop())
        } else if self.is_exhausted() {
            CounterStep::Running(self)
        } else {
            let mut next = self;
            next.tick();
            CounterStep::Running(next)
        }
    }
}

} // verus!
