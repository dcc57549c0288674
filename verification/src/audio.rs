use vstd::prelude::*;

use vstd::arithmetic::div_mod::{lemma_fundamental_div_mod, lemma_fundamental_div_mod_converse};

verus! {

/// How many frames an output buffer of `len` interleaved samples holds for
/// `channels` channels, counting a last, partial one.
pub open spec fn frame_count(len: nat, channels: nat) -> nat {
    if len % channels == 0 {
        len / channels
    } else {
        len / channels + 1
    }
}

/// The sample at position `i` of an output buffer of `channels` channels
/// filled from `frames`: the left sample on the first channel, the right one
/// on the second, and silence on any other.
pub open spec fn frame_sample<S>(frames: Seq<(S, S)>, channels: nat, silence: S, i: int) -> S {
    let f = i / channels as int;
    let c = i % channels as int;
    if c == 0 {
        frames[f].0
    } else if c == 1 {
        frames[f].1
    } else {
        silence
    }
}

/// How many frames an output buffer of `len` samples holds for `channels`
/// channels: one stereo frame is asked of the audio handler for each.
pub fn count_frames(len: usize, channels: usize) -> (n: usize)
    requires
        channels > 0,
    ensures
        n == frame_count(len as nat, channels as nat),
{
    if len % channels == 0 {
        len / channels
    } else {
        proof {
            lemma_fundamental_div_mod(len as int, channels as int);
            assert(len / channels < len) by (nonlinear_arith)
                requires
                    channels > 0,
                    len % channels != 0,
                    len == channels * (len / channels) + len % channels,
                    len % channels < channels,
            ;
        }
        len / channels + 1
    }
}

proof fn lemma_frame_in_range(len: int, channels: int, f: int, c: int)
    requires
        channels > 0,
        0 <= c < channels,
        f >= 0,
        f * channels + c < len,
    ensures
        0 <= f < (if len % channels == 0 { len / channels } else { len / channels + 1 }),
{
    lemma_fundamental_div_mod(len, channels);
    let q = len / channels;
    let r = len % channels;
    assert(f < q + 1) by (nonlinear_arith)
        requires
            channels > 0,
            0 <= c,
            f * channels + c < len,
            len == channels * q + r,
            r < channels,
    ;
    if r == 0 {
        assert(f < q) by (nonlinear_arith)
            requires
                channels > 0,
                0 <= c,
                f * channels + c < len,
                len == channels * q,
        ;
    }
}

/// Fills an output buffer of interleaved samples for `channels` channels
/// from `frames`, one frame per group of `channels` samples: the left sample
/// first, the right one second, and silence on any further channel. A last,
/// partial group gets what fits of its frame; it must hold both samples of a
/// stereo frame when there is more than one channel.
pub fn write_frames<S: Copy>(data: &mut [S], channels: usize, frames: &Vec<(S, S)>, silence: S)
    requires
        channels > 0,
        frames@.len() == frame_count(old(data)@.len(), channels as nat),
        channels > 1 ==> old(data)@.len() % (channels as nat) != 1,
    ensures
        final(data)@.len() == old(data)@.len(),
        forall|i: int| 0 <= i < old(data)@.len() ==> #[trigger] final(data)@[i] == frame_sample(
            frames@,
            channels as nat,
            silence,
            i,
        ),
{
    let len = data.len();
    let mut i: usize = 0;
    let mut f: usize = 0;
    let mut c: usize = 0;
    while i < len
        invariant
            len == data@.len(),
            len == old(data)@.len(),
            channels > 0,
            frames@.len() == frame_count(len as nat, channels as nat),
            i <= len,
            c < channels,
            i == f * channels + c,
            forall|j: int| 0 <= j < i ==> #[trigger] data@[j] == frame_sample(frames@, channels as nat, silence, j),
        decreases len - i,
    {
        proof {
            lemma_frame_in_range(len as int, channels as int, f as int, c as int);
            lemma_fundamental_div_mod_converse(i as int, channels as int, f as int, c as int);
        }
        let frame = frames[f];
        let value = if c == 0 {
            frame.0
        } else if c == 1 {
            frame.1
        } else {
            silence
        };
        data[i] = value;
        i = i + 1;
        c = c + 1;
        if c == channels {
            assert(i == (f + 1) * channels) by (nonlinear_arith)
                requires
                    i == f * channels + c,
                    c == channels,
            ;
            c = 0;
            f = f + 1;
        }
    }
}

/// In a buffer filled for two or more channels, frame `f` starts at sample
/// `f * channels`: its left sample there, its right sample next, and silence
/// on the further channels of the frame.
pub proof fn law_interleaved_frames<S>(frames: Seq<(S, S)>, channels: nat, silence: S, f: int, c: int)
    requires
        channels >= 2,
        0 <= f,
        0 <= c < channels,
    ensures
        frame_sample(frames, channels, silence, f * channels) == frames[f].0,
        frame_sample(frames, channels, silence, f * channels + 1) == frames[f].1,
        c >= 2 ==> frame_sample(frames, channels, silence, f * channels + c) == silence,
{
    lemma_fundamental_div_mod_converse(f * channels, channels as int, f, 0);
    lemma_fundamental_div_mod_converse(f * channels + 1, channels as int, f, 1);
    lemma_fundamental_div_mod_converse(f * channels + c, channels as int, f, c);
}

} // verus!
