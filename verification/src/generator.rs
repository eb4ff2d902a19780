//! A generator: a shape together with a sample clock that wraps once a second.

use vstd::prelude::*;
use vstd::arithmetic::div_mod::*;
use crate::wave::{spec_val, Amplitude, Value, WaveFunction};

verus! {

/// The clock after one sample: it counts the samples of one second and wraps.
pub open spec fn next_clock(clock: int, rate: int) -> int {
    (clock + 1) % rate
}

/// The clock after `steps` samples, stepping once at a time.
pub open spec fn clock_after(clock: int, rate: int, steps: nat) -> int
    decreases steps,
{
    if steps == 0 {
        clock
    } else {
        next_clock(clock_after(clock, rate, (steps - 1) as nat), rate)
    }
}

/// Stepping `steps` times adds `steps` modulo the rate.
pub proof fn lemma_clock_after(clock: int, rate: int, steps: nat)
    requires
        0 <= clock < rate,
    ensures
        clock_after(clock, rate, steps) == (clock + steps) % rate,
    decreases steps,
{
    if steps == 0 {
        lemma_small_mod(clock as nat, rate as nat);
    } else {
        lemma_clock_after(clock, rate, (steps - 1) as nat);
        lemma_add_mod_noop(clock + steps - 1, 1, rate);
        lemma_mod_bound(clock + steps - 1, rate);
        if rate > 1 {
            lemma_small_mod(1, rate as nat);
        }
    }
}

/// After as many samples as one second holds, the clock is where it started.
pub proof fn lemma_clock_returns(clock: int, rate: int)
    requires
        0 <= clock < rate,
    ensures
        clock_after(clock, rate, rate as nat) == clock,
{
    lemma_clock_after(clock, rate, rate as nat);
    lemma_mod_multiples_vanish(1, clock, rate);
    lemma_small_mod(clock as nat, rate as nat);
}

/// What a generator holds.
pub struct WaveGenView {
    pub function: WaveFunction,
    pub sample_rate: int,
    pub sample_clock: int,
}

impl WaveGenView {
    /// The amplitude of the sample that comes next.
    pub open spec fn value(self) -> Amplitude {
        spec_val(self.function, self.sample_clock, self.sample_rate)
    }

    /// The generator after one sample.
    pub open spec fn next(self) -> WaveGenView {
        WaveGenView { sample_clock: next_clock(self.sample_clock, self.sample_rate), ..self }
    }

    /// The generator after `steps` samples: the clock has moved on by `steps`
    /// and wrapped at each full second.
    pub open spec fn after(self, steps: nat) -> WaveGenView {
        WaveGenView { sample_clock: (self.sample_clock + steps) % self.sample_rate, ..self }
    }
}

/// Yields the samples of one shape, one at each call of [`WaveGen::step`].
pub struct WaveGen {
    function: WaveFunction,
    sample_rate: u32,
    sample_clock: u32,
}

impl View for WaveGen {
    type V = WaveGenView;

    closed spec fn view(&self) -> WaveGenView {
        WaveGenView {
            function: self.function,
            sample_rate: self.sample_rate as int,
            sample_clock: self.sample_clock as int,
        }
    }
}

impl WaveGen {
    /// The clock stays within one second; a generator without a rate never
    /// leaves sample zero.
    #[verifier::type_invariant]
    spec fn inv(self) -> bool {
        self.sample_clock < self.sample_rate || self.sample_clock == 0
    }

    /// A generator at the start of a second.
    pub fn new(function: WaveFunction, sample_rate: u32) -> (g: Self)
        ensures
            g@ == (WaveGenView { function, sample_rate: sample_rate as int, sample_clock: 0 }),
    {
        Self { function, sample_rate, sample_clock: 0 }
    }

    /// The amplitude of the current sample; the clock then moves on by one.
    pub fn step(&mut self) -> (v: Value)
        requires
            old(self)@.sample_rate > 0,
        ensures
            v@ == old(self)@.value(),
            v@.wf(),
            final(self)@ == old(self)@.next(),
    {
        proof {
            use_type_invariant(&*self);
        }
        let v = self.function.val(self.sample_clock, self.sample_rate);
        proof {
            lemma_mod_bound(self.sample_clock + 1, self.sample_rate as int);
        }
        self.sample_clock = (self.sample_clock + 1) % self.sample_rate;
        v
    }

    /// The shape.
    pub fn function(&self) -> (f: WaveFunction)
        ensures
            f == self@.function,
    {
        self.function
    }

    /// Samples per second.
    pub fn sample_rate(&self) -> (r: u32)
        ensures
            r == self@.sample_rate,
    {
        self.sample_rate
    }

    /// The current sample's place within its second.
    pub fn sample_clock(&self) -> (c: u32)
        ensures
            c == self@.sample_clock,
            self@.sample_rate > 0 ==> c < self@.sample_rate,
            self@.sample_rate == 0 ==> c == 0,
    {
        proof {
            use_type_invariant(self);
        }
        self.sample_clock
    }
}

} // verus!
