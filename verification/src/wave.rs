//! The five periodic shapes, evaluated exactly at a sample clock.

use vstd::prelude::*;
use vstd::arithmetic::div_mod::*;

verus! {

/// Periods of the tone per second.
pub const FREQUENCY: u32 = 440;

/// Every sample is one part in `AMPLITUDE_DIVISOR` of the shape's value, which
/// keeps the output well below full scale.
pub const AMPLITUDE_DIVISOR: u32 = 4;

/// The rational number `num / den`.
pub struct Fraction {
    pub num: int,
    pub den: int,
}

impl Fraction {
    /// A fraction has a positive denominator.
    pub open spec fn wf(self) -> bool {
        self.den > 0
    }

    /// The number lies in `[-1/scale, 1/scale]`.
    pub open spec fn within(self, scale: int) -> bool {
        self.wf() && -self.den <= scale * self.num <= self.den
    }

    /// The number lies in `[0, 1)`.
    pub open spec fn is_turn(self) -> bool {
        0 <= self.num < self.den
    }
}

/// A fraction of machine integers.
#[derive(Clone, Copy, Debug, PartialEq, Eq, Structural)]
pub struct Ratio {
    pub num: i64,
    pub den: i64,
}

impl View for Ratio {
    type V = Fraction;

    open spec fn view(&self) -> Fraction {
        Fraction { num: self.num as int, den: self.den as int }
    }
}

/// The periodic shape of the tone.
#[derive(Clone, Copy, Debug, PartialEq, Eq, Structural)]
pub enum WaveFunction {
    Sine,
    Square,
    Triangle,
    Sawtooth,
    SineMag,
}

/// The amplitude of one sample, as a number.
///
/// The three shapes made of straight lines give a rational number. The two sine
/// shapes give the position within the period at which the sine is taken.
pub enum Amplitude {
    /// The amplitude is this number.
    Exact(Fraction),
    /// The amplitude is `sin(2 pi x) / AMPLITUDE_DIVISOR`, where `x` is this
    /// part of a period.
    Sine(Fraction),
    /// The amplitude is `(2 |sin(pi x)| - 1) / AMPLITUDE_DIVISOR`, where `x` is
    /// this part of a period.
    SineMag(Fraction),
}

impl Amplitude {
    /// An exact amplitude lies in `[-1/4, 1/4]`; a position within the period
    /// lies in `[0, 1)`. Since a sine lies in `[-1, 1]`, every amplitude that
    /// is well formed stands for a number in `[-1/4, 1/4]`.
    pub open spec fn wf(self) -> bool {
        match self {
            Amplitude::Exact(q) => q.within(AMPLITUDE_DIVISOR as int),
            Amplitude::Sine(x) => x.is_turn(),
            Amplitude::SineMag(x) => x.is_turn(),
        }
    }
}

/// The amplitude of one sample in machine integers. The sine of the two sine
/// shapes is no rational number and is left to the caller.
#[derive(Clone, Copy, Debug, PartialEq, Eq, Structural)]
pub enum Value {
    /// See [`Amplitude::Exact`].
    Exact(Ratio),
    /// See [`Amplitude::Sine`].
    Sine(Ratio),
    /// See [`Amplitude::SineMag`].
    SineMag(Ratio),
}

impl View for Value {
    type V = Amplitude;

    open spec fn view(&self) -> Amplitude {
        match *self {
            Value::Exact(q) => Amplitude::Exact(q@),
            Value::Sine(x) => Amplitude::Sine(x@),
            Value::SineMag(x) => Amplitude::SineMag(x@),
        }
    }
}

/// The phase at sample `clock` is `clock * FREQUENCY / rate` periods; this is
/// its numerator.
pub open spec fn spec_phase_num(clock: int) -> int {
    FREQUENCY * clock
}

/// Whole periods that lie before sample `clock`: the floor of the phase.
pub open spec fn spec_period(clock: int, rate: int) -> int {
    spec_phase_num(clock) / rate
}

/// The phase's fractional part, counted in parts of `rate`.
pub open spec fn spec_turn_num(clock: int, rate: int) -> int {
    spec_phase_num(clock) % rate
}

/// The square shape `(-1)^floor(2 phase)`.
pub open spec fn spec_square(clock: int, rate: int) -> int {
    if ((2 * spec_phase_num(clock)) / rate) % 2 == 0 {
        1
    } else {
        -1
    }
}

/// The triangle shape `1 - 4 |1/2 - fract(phase + 1/4)|`, counted in parts of
/// `rate`: with `t = fract(phase + 1/4) * 4 rate`, an integer, the shape is
/// `(rate - |2 rate - t|) / rate`.
pub open spec fn spec_triangle_num(clock: int, rate: int) -> int {
    let t = (4 * spec_phase_num(clock) + rate) % (4 * rate);
    if t <= 2 * rate {
        t - rate
    } else {
        3 * rate - t
    }
}

/// The sawtooth shape `2 fract(phase) - 1`, counted in parts of `rate`.
pub open spec fn spec_sawtooth_num(clock: int, rate: int) -> int {
    2 * spec_turn_num(clock, rate) - rate
}

/// The amplitude of `function` at sample `clock`, with `rate` samples per
/// second: the shape at phase `clock * FREQUENCY / rate`, divided by
/// `AMPLITUDE_DIVISOR`.
pub open spec fn spec_val(function: WaveFunction, clock: int, rate: int) -> Amplitude {
    match function {
        WaveFunction::Sine => Amplitude::Sine(
            Fraction { num: spec_turn_num(clock, rate), den: rate },
        ),
        WaveFunction::Square => Amplitude::Exact(
            Fraction { num: spec_square(clock, rate), den: AMPLITUDE_DIVISOR as int },
        ),
        WaveFunction::Triangle => Amplitude::Exact(
            Fraction { num: spec_triangle_num(clock, rate), den: AMPLITUDE_DIVISOR * rate },
        ),
        WaveFunction::Sawtooth => Amplitude::Exact(
            Fraction { num: spec_sawtooth_num(clock, rate), den: AMPLITUDE_DIVISOR * rate },
        ),
        WaveFunction::SineMag => Amplitude::SineMag(
            Fraction { num: spec_turn_num(clock, rate), den: rate },
        ),
    }
}

/// The phase numerator is linear in the clock.
proof fn lemma_phase_num(clock: int)
    ensures
        spec_phase_num(clock) == 440 * clock,
{
    assert(FREQUENCY * clock == 440 * clock) by (nonlinear_arith)
        requires
            FREQUENCY == 440,
    ;
}

/// Adding `k` times the divisor adds `k` to the quotient and leaves the
/// remainder.
proof fn lemma_shift_by_multiple(x: int, d: int, k: int)
    requires
        d > 0,
    ensures
        (x + k * d) % d == x % d,
        (x + k * d) / d == x / d + k,
{
    lemma_fundamental_div_mod(x, d);
    lemma_mod_bound(x, d);
    assert(x + k * d == (x / d + k) * d + x % d) by (nonlinear_arith)
        requires
            x == d * (x / d) + x % d,
    ;
    lemma_fundamental_div_mod_converse(x + k * d, d, x / d + k, x % d);
}

impl WaveFunction {
    /// The amplitude of this shape at `sample_clock`.
    pub fn val(&self, sample_clock: u32, sample_rate: u32) -> (v: Value)
        requires
            sample_rate > 0,
        ensures
            v@ == spec_val(*self, sample_clock as int, sample_rate as int),
            v@.wf(),
    {
        proof {
            lemma_phase_num(sample_clock as int);
        }
        let rate: u64 = sample_rate as u64;
        let n: u64 = FREQUENCY as u64 * sample_clock as u64;
        proof {
            lemma_mod_bound(n as int, rate as int);
            lemma_mod_bound(4 * n + rate, 4 * rate);
        }
        match self {
            WaveFunction::Sine => Value::Sine(Ratio { num: (n % rate) as i64, den: rate as i64 }),
            WaveFunction::Square => {
                let half: u64 = (2 * n) / rate;
                let sign: i64 = if half % 2 == 0 {
                    1
                } else {
                    -1
                };
                Value::Exact(Ratio { num: sign, den: AMPLITUDE_DIVISOR as i64 })
            },
            WaveFunction::Triangle => {
                let t: u64 = (4 * n + rate) % (4 * rate);
                let num: i64 = if t <= 2 * rate {
                    t as i64 - rate as i64
                } else {
                    3 * rate as i64 - t as i64
                };
                Value::Exact(Ratio { num, den: AMPLITUDE_DIVISOR as i64 * rate as i64 })
            },
            WaveFunction::Sawtooth => {
                let num: i64 = 2 * (n % rate) as i64 - rate as i64;
                Value::Exact(Ratio { num, den: AMPLITUDE_DIVISOR as i64 * rate as i64 })
            },
            WaveFunction::SineMag => Value::SineMag(
                Ratio { num: (n % rate) as i64, den: rate as i64 },
            ),
        }
    }
}

/// Every amplitude lies in `[-1/4, 1/4]`: an exact one as a number, a sine
/// shape by its position within the period, which lies in `[0, 1)`.
pub proof fn lemma_val_in_range(function: WaveFunction, clock: int, rate: int)
    requires
        rate > 0,
    ensures
        spec_val(function, clock, rate).wf(),
{
    lemma_mod_bound(spec_phase_num(clock), rate);
    lemma_mod_bound(4 * spec_phase_num(clock) + rate, 4 * rate);
}

/// The sine shape starts at phase zero, where the sine is zero.
pub proof fn lemma_sine_starts_at_zero(rate: int)
    requires
        rate > 0,
    ensures
        spec_val(WaveFunction::Sine, 0, rate) == Amplitude::Sine(Fraction { num: 0, den: rate }),
{
    lemma_phase_num(0);
    lemma_small_mod(0, rate as nat);
}

/// Every shape repeats after `rate` samples, which is one second.
pub proof fn lemma_val_periodic(function: WaveFunction, clock: int, rate: int)
    requires
        rate > 0,
    ensures
        spec_val(function, clock + rate, rate) == spec_val(function, clock, rate),
{
    lemma_phase_num(clock);
    lemma_phase_num(clock + rate);
    let n = spec_phase_num(clock);
    lemma_shift_by_multiple(n, rate, 440);
    lemma_shift_by_multiple(2 * n, rate, 880);
    lemma_shift_by_multiple(4 * n + rate, 4 * rate, 440);
}

/// The square shape takes no value but `1/4` and `-1/4`.
pub proof fn lemma_square_is_extreme(clock: int, rate: int)
    ensures
        spec_val(WaveFunction::Square, clock, rate) == Amplitude::Exact(Fraction { num: 1, den: 4 })
            || spec_val(WaveFunction::Square, clock, rate) == Amplitude::Exact(
            Fraction { num: -1, den: 4 },
        ),
{
}

/// With more than `FREQUENCY` samples per second, the sawtooth rises by the
/// same step from each sample to the next while both lie in one period, and
/// falls where the next sample lies in the next period: once per period.
pub proof fn lemma_sawtooth_rises_or_wraps(clock: int, rate: int)
    requires
        clock >= 0,
        rate > FREQUENCY,
    ensures
        spec_period(clock + 1, rate) == spec_period(clock, rate) ==> spec_sawtooth_num(
            clock + 1,
            rate,
        ) == spec_sawtooth_num(clock, rate) + 2 * FREQUENCY,
        spec_period(clock + 1, rate) != spec_period(clock, rate) ==> {
            &&& spec_period(clock + 1, rate) == spec_period(clock, rate) + 1
            &&& spec_sawtooth_num(clock + 1, rate) == spec_sawtooth_num(clock, rate) + 2 * FREQUENCY
                - 2 * rate
            &&& spec_sawtooth_num(clock + 1, rate) < spec_sawtooth_num(clock, rate)
        },
{
    lemma_phase_num(clock);
    lemma_phase_num(clock + 1);
    let n = spec_phase_num(clock);
    let q = n / rate;
    let m = n % rate;
    lemma_fundamental_div_mod(n, rate);
    lemma_mod_bound(n, rate);
    if m + 440 < rate {
        assert(n + 440 == q * rate + (m + 440)) by (nonlinear_arith)
            requires
                n == rate * q + m,
        ;
        lemma_fundamental_div_mod_converse(n + 440, rate, q, m + 440);
    } else {
        assert(n + 440 == (q + 1) * rate + (m + 440 - rate)) by (nonlinear_arith)
            requires
                n == rate * q + m,
        ;
        lemma_fundamental_div_mod_converse(n + 440, rate, q + 1, m + 440 - rate);
    }
}

} // verus!
