//! Sample encodings: between a fraction of full scale and 16-bit integers.

use vstd::prelude::*;
use vstd::arithmetic::div_mod::*;
use crate::wave::{Fraction, Ratio};

verus! {

/// The largest unsigned 16-bit sample.
pub const U16_FULL_SCALE: u16 = 65535;

/// The largest signed 16-bit sample.
pub const I16_FULL_SCALE: i16 = 32767;

/// The unsigned 16-bit sample that stands for silence.
pub const U16_MIDPOINT: u16 = 32768;

/// The integer nearest to `num / den`, for `num >= 0` and a positive `den`; of
/// two that are equally near, the greater.
pub open spec fn spec_round_half_up(num: int, den: int) -> int {
    if 2 * (num % den) >= den {
        num / den + 1
    } else {
        num / den
    }
}

/// The integer nearest to `num / den`, for a positive `den`; of two that are
/// equally near, the one farther from zero.
pub open spec fn spec_round(num: int, den: int) -> int {
    if num >= 0 {
        spec_round_half_up(num, den)
    } else {
        -spec_round_half_up(-num, den)
    }
}

/// The unsigned 16-bit encoding of `x`: `round((x / 2 + 1/2) * 65535)`.
pub open spec fn spec_to_u16(x: Fraction) -> int {
    spec_round(U16_FULL_SCALE * (x.num + x.den), 2 * x.den)
}

/// The signed 16-bit encoding of `x`: `round(x * 32767)`.
pub open spec fn spec_to_i16(x: Fraction) -> int {
    spec_round(I16_FULL_SCALE * x.num, x.den)
}

/// The number that the unsigned 16-bit sample `sample` stands for:
/// `(sample / 65535 - 1/2) * 2`.
pub open spec fn spec_from_u16(sample: int) -> Fraction {
    Fraction { num: 2 * sample - U16_FULL_SCALE, den: U16_FULL_SCALE as int }
}

/// A rounded quotient is at most half a unit from the quotient.
pub proof fn lemma_round_is_nearest(num: int, den: int)
    requires
        den > 0,
    ensures
        -den <= 2 * (spec_round(num, den) * den - num) <= den,
{
    let a = if num >= 0 {
        num
    } else {
        -num
    };
    let r = spec_round_half_up(a, den);
    lemma_fundamental_div_mod(a, den);
    lemma_mod_bound(a, den);
    assert(-den <= 2 * (r * den - a) <= den) by (nonlinear_arith)
        requires
            a == den * (a / den) + a % den,
            0 <= a % den < den,
            r == if 2 * (a % den) >= den {
                a / den + 1
            } else {
                a / den
            },
    ;
    assert((-r) * den == -(r * den)) by (nonlinear_arith);
}

/// The encodings of a number in `[-1, 1]` fit their 16 bits.
pub proof fn lemma_encodings_fit(x: Fraction)
    requires
        x.within(1),
    ensures
        0 <= spec_to_u16(x) <= U16_FULL_SCALE,
        -I16_FULL_SCALE <= spec_to_i16(x) <= I16_FULL_SCALE,
{
    let u = spec_to_u16(x);
    lemma_round_is_nearest(U16_FULL_SCALE * (x.num + x.den), 2 * x.den);
    assert(0 <= u <= 65535) by (nonlinear_arith)
        requires
            x.den > 0,
            0 <= x.num + x.den <= 2 * x.den,
            -2 * x.den <= 2 * (u * (2 * x.den) - 65535 * (x.num + x.den)) <= 2 * x.den,
    ;
    let s = spec_to_i16(x);
    lemma_round_is_nearest(I16_FULL_SCALE * x.num, x.den);
    assert(-32767 <= s <= 32767) by (nonlinear_arith)
        requires
            x.den > 0,
            -x.den <= x.num <= x.den,
            -x.den <= 2 * (s * x.den - 32767 * x.num) <= x.den,
    ;
}

/// Encoding a number in `[-1, 1]` as an unsigned 16-bit sample and decoding
/// it again gives a number within `1/65535` of it, which is half the distance
/// between two neighbouring samples.
pub proof fn lemma_u16_round_trip(x: Fraction)
    requires
        x.within(1),
    ensures
        ({
            let y = spec_from_u16(spec_to_u16(x));
            -x.den <= y.num * x.den - x.num * y.den <= x.den
        }),
{
    let u = spec_to_u16(x);
    lemma_round_is_nearest(U16_FULL_SCALE * (x.num + x.den), 2 * x.den);
    assert((2 * u - 65535) * x.den - x.num * 65535 == u * (2 * x.den) - 65535 * (x.num + x.den))
        by (nonlinear_arith);
}

/// The quotient `num / den` rounded to the nearest integer, for `num >= 0`.
fn round_nonnegative(num: i128, den: i128) -> (r: i128)
    requires
        0 <= num <= 0x1_0000_0000_0000_0000_0000,
        0 < den <= 0x1_0000_0000_0000_0000_0000,
    ensures
        r == spec_round(num as int, den as int),
        r == spec_round_half_up(num as int, den as int),
        0 <= r,
{
    proof {
        lemma_div_pos_is_pos(num as int, den as int);
        lemma_div_is_ordered_by_denominator(num as int, 1, den as int);
        lemma_div_basics(num as int);
        lemma_mod_bound(num as int, den as int);
    }
    let quotient: i128 = num / den;
    if 2 * (num % den) >= den {
        quotient + 1
    } else {
        quotient
    }
}

/// Encodes an amplitude as an unsigned 16-bit sample: silence lies at the
/// middle of the range, `-1` at `0` and `1` at `65535`.
pub fn to_u16(value: Ratio) -> (sample: u16)
    requires
        value@.within(1),
    ensures
        sample == spec_to_u16(value@),
{
    proof {
        lemma_encodings_fit(value@);
    }
    let sum: i128 = value.num as i128 + value.den as i128;
    let r: i128 = round_nonnegative(U16_FULL_SCALE as i128 * sum, 2 * value.den as i128);
    r as u16
}

/// Encodes an amplitude as a signed 16-bit sample: `-1` at `-32767` and `1` at
/// `32767`.
pub fn to_i16(value: Ratio) -> (sample: i16)
    requires
        value@.within(1),
    ensures
        sample == spec_to_i16(value@),
{
    proof {
        lemma_encodings_fit(value@);
    }
    if value.num >= 0 {
        let r: i128 = round_nonnegative(I16_FULL_SCALE as i128 * value.num as i128, value.den as i128);
        r as i16
    } else {
        let r: i128 = round_nonnegative(
            I16_FULL_SCALE as i128 * (-(value.num as i128)),
            value.den as i128,
        );
        (-r) as i16
    }
}

/// Decodes an unsigned 16-bit sample.
pub fn from_u16(sample: u16) -> (value: Ratio)
    ensures
        value@ == spec_from_u16(sample as int),
        value@.within(1),
{
    Ratio { num: 2 * sample as i64 - U16_FULL_SCALE as i64, den: U16_FULL_SCALE as i64 }
}

/// Turns a captured unsigned sample into a signed one by taking the midpoint
/// of the unsigned range off.
pub fn unsigned_to_signed(sample: u16) -> (signed: i16)
    ensures
        signed == sample - U16_MIDPOINT,
{
    if sample >= U16_MIDPOINT {
        (sample - U16_MIDPOINT) as i16
    } else {
        (sample as i16) - I16_FULL_SCALE - 1
    }
}

} // verus!
