//! Filling an output buffer: one sample a frame, the same on every channel.

use vstd::prelude::*;
use vstd::arithmetic::div_mod::*;
use crate::generator::WaveGen;
use crate::wave::{Amplitude, Value};

verus! {

/// Frames that `slots` sample slots hold with `channels` slots to a frame; a
/// last frame may be cut short.
pub open spec fn spec_frames(slots: int, channels: int) -> int {
    (slots + channels - 1) / channels
}

/// `out` is what `encode` may give for a value that stands for `amplitude`.
pub open spec fn encodes<T, F: Fn(Value) -> T>(encode: F, amplitude: Amplitude, out: T) -> bool {
    exists|v: Value| v@ == amplitude && #[trigger] encode.ensures((v,), out)
}

/// Slot `i` of a frame that starts at `k * channels` belongs to frame `k`.
proof fn lemma_slot_frame(i: int, k: int, channels: int)
    requires
        channels > 0,
        k * channels <= i < k * channels + channels,
    ensures
        i / channels == k,
{
    lemma_fundamental_div_mod_converse(i, channels, k, i - k * channels);
}

/// A slot of a buffer lies in one of the buffer's frames.
proof fn lemma_slot_in_frames(i: int, slots: int, channels: int)
    requires
        channels > 0,
        0 <= i < slots,
    ensures
        0 <= i / channels < spec_frames(slots, channels),
{
    lemma_div_pos_is_pos(i, channels);
    lemma_div_is_ordered(i, slots - 1, channels);
    lemma_hoist_over_denominator(slots - 1, 1, channels as nat);
}

/// `k` whole frames and a rest make `k` frames, or one more where there is a
/// rest.
proof fn lemma_frames(k: int, rest: int, channels: int)
    requires
        channels > 0,
        0 <= rest <= channels,
    ensures
        spec_frames(k * channels + rest, channels) == if rest == 0 {
            k
        } else {
            k + 1
        },
{
    if rest == 0 {
        lemma_fundamental_div_mod_converse(
            k * channels + channels - 1,
            channels,
            k,
            channels - 1,
        );
    } else {
        assert(k * channels + rest + channels - 1 == (k + 1) * channels + (rest - 1))
            by (nonlinear_arith);
        lemma_fundamental_div_mod_converse(
            k * channels + rest + channels - 1,
            channels,
            k + 1,
            rest - 1,
        );
    }
}

/// Fills `buffer` frame by frame. Each frame takes one sample from
/// `generator`, encoded once by `encode`, and holds it in every one of its
/// `channels` slots. The generator's clock moves on by the number of frames.
pub fn fill_frames<T: Copy, F: Fn(Value) -> T>(
    generator: &mut WaveGen,
    buffer: &mut [T],
    channels: usize,
    encode: F,
)
    requires
        old(generator)@.sample_rate > 0,
        channels > 0,
        forall|v: Value| v@.wf() ==> encode.requires((v,)),
    ensures
        final(buffer)@.len() == old(buffer)@.len(),
        final(generator)@ == old(generator)@.after(
            spec_frames(old(buffer)@.len() as int, channels as int) as nat,
        ),
        forall|i: int|
            0 <= i < old(buffer)@.len() ==> encodes(
                encode,
                old(generator)@.after((i / channels as int) as nat).value(),
                #[trigger] final(buffer)@[i],
            ),
        forall|i: int, j: int|
            0 <= i < old(buffer)@.len() && 0 <= j < old(buffer)@.len() && i / (channels as int) == j
                / (channels as int) ==> #[trigger] final(buffer)@[i] == #[trigger] final(buffer)@[j],
{
    let len: usize = buffer.len();
    // The getter tells that the clock lies below the rate.
    let clock: u32 = generator.sample_clock();
    let mut start: usize = 0;
    let ghost mut frame: int = 0;
    let ghost mut values: Seq<T> = Seq::empty();
    proof {
        lemma_frames(0, 0, channels as int);
        lemma_small_mod(clock as nat, generator@.sample_rate as nat);
    }
    while start < len
        invariant
            channels > 0,
            len == buffer@.len(),
            len == old(buffer)@.len(),
            start <= len,
            start < len ==> start == frame * channels,
            0 <= frame,
            frame == spec_frames(start as int, channels as int),
            generator@.sample_rate > 0,
            clock == old(generator)@.sample_clock,
            generator@ == old(generator)@.after(frame as nat),
            values.len() == frame,
            forall|v: Value| v@.wf() ==> encode.requires((v,)),
            forall|k: int|
                0 <= k < frame ==> encodes(
                    encode,
                    old(generator)@.after(k as nat).value(),
                    #[trigger] values[k],
                ),
            forall|i: int|
                0 <= i < start ==> #[trigger] buffer@[i] == values[i / (channels as int)],
        decreases len - start,
    {
        let end: usize = if len - start < channels {
            len
        } else {
            start + channels
        };
        let value = generator.step();
        let out: T = encode(value);
        let mut i: usize = start;
        while i < end
            invariant
                channels > 0,
                len == buffer@.len(),
                start <= i <= end <= len,
                start == frame * channels,
                end <= start + channels,
                0 <= frame,
                values.len() == frame,
                forall|j: int|
                    0 <= j < start ==> #[trigger] buffer@[j] == values[j / (channels as int)],
                forall|j: int| start <= j < i ==> #[trigger] buffer@[j] == out,
            decreases end - i,
        {
            buffer[i] = out;
            i = i + 1;
        }
        proof {
            assert forall|j: int| 0 <= j < end implies #[trigger] buffer@[j] == values.push(
                out,
            )[j / (channels as int)] by {
                if j >= start {
                    lemma_slot_frame(j, frame, channels as int);
                } else {
                    lemma_slot_in_frames(j, start as int, channels as int);
                }
            }
            assert(old(generator)@.after(frame as nat).next() == old(generator)@.after(
                (frame + 1) as nat,
            )) by {
                let rate = old(generator)@.sample_rate;
                lemma_add_mod_noop(clock + frame, 1, rate);
                lemma_mod_bound(clock + frame, rate);
                if rate > 1 {
                    lemma_small_mod(1, rate as nat);
                }
            }
            lemma_frames(frame, end - start, channels as int);
            assert((frame + 1) * channels == frame * channels + channels) by (nonlinear_arith);
            values = values.push(out);
            frame = frame + 1;
        }
        start = end;
    }
    proof {
        assert forall|i: int| 0 <= i < len implies encodes(
            encode,
            old(generator)@.after((i / (channels as int)) as nat).value(),
            #[trigger] buffer@[i],
        ) by {
            lemma_slot_in_frames(i, len as int, channels as int);
        }
        assert forall|i: int, j: int|
            0 <= i < len && 0 <= j < len && i / (channels as int) == j
                / (channels as int) implies #[trigger] buffer@[i] == #[trigger] buffer@[j] by {
            assert(buffer@[i] == values[i / (channels as int)]);
            assert(buffer@[j] == values[j / (channels as int)]);
        }
    }
}

} // verus!
