//! Channel-layout conversion for interleaved sample data.

use vstd::prelude::*;

use crate::errors::SampleLoadError;

verus! {

/// Truncating division by two (rounds toward zero, like the `/` operator of
/// the execution platform on signed integers).
pub open spec fn tdiv2(a: int) -> int {
    if a >= 0 {
        a / 2
    } else {
        -((-a) / 2)
    }
}

/// The per-frame mean of a stereo frame, rounded toward zero.
pub open spec fn frame_mean(a: i32, b: i32) -> i32 {
    tdiv2(a as int + b as int) as i32
}

/// A mono signal duplicated to both stereo channels.
pub open spec fn mono_to_stereo(s: Seq<i32>) -> Seq<i32> {
    Seq::new((s.len() * 2) as nat, |i: int| s[i / 2])
}

/// A stereo signal mixed down to mono by the per-frame mean.
pub open spec fn stereo_to_mono(s: Seq<i32>) -> Seq<i32> {
    Seq::new((s.len() / 2) as nat, |i: int| frame_mean(s[2 * i], s[2 * i + 1]))
}

/// Whether a channel mapping is one of the supported pairs.
pub open spec fn mapping_supported(file_channels: usize, output_channels: usize) -> bool {
    file_channels == output_channels
        || (file_channels == 1 && output_channels == 2)
        || (file_channels == 2 && output_channels == 1)
}

/// Maps interleaved audio samples from one channel layout to another.
///
/// The same layout is passed through unchanged, mono is duplicated to
/// stereo, stereo is averaged per frame to mono, and every other pair is
/// rejected.
pub fn map_channels(samples: Vec<i32>, file_channels: usize, output_channels: usize) -> (r: Result<
    Vec<i32>,
    SampleLoadError,
>)
    requires
        samples@.len() * 2 <= usize::MAX,
    ensures
        file_channels == output_channels ==> r == Ok::<Vec<i32>, SampleLoadError>(samples),
        file_channels == 1 && output_channels == 2 ==> {
            &&& r is Ok
            &&& r->Ok_0@ == mono_to_stereo(samples@)
        },
        file_channels == 2 && output_channels == 1 ==> {
            &&& r is Ok
            &&& r->Ok_0@ == stereo_to_mono(samples@)
        },
        !mapping_supported(file_channels, output_channels) ==> r == Err::<Vec<i32>,
            SampleLoadError,
        >(SampleLoadError::UnsupportedChannels { file_channels, output_channels }),
{
    if file_channels == output_channels {
        return Ok(samples);
    }
    if file_channels == 1 && output_channels == 2 {
        let mut out: Vec<i32> = Vec::new();
        let mut i: usize = 0;
        while i < samples.len()
            invariant
                i <= samples@.len(),
                samples@.len() * 2 <= usize::MAX,
                out@.len() == 2 * i,
                forall|k: int| 0 <= k < out@.len() ==> out@[k] == samples@[k / 2],
            decreases samples@.len() - i,
        {
            let s = samples[i];
            out.push(s);
            out.push(s);
            i = i + 1;
        }
        proof {
            assert(out@ =~= mono_to_stereo(samples@));
        }
        return Ok(out);
    }
    if file_channels == 2 && output_channels == 1 {
        let frames = samples.len() / 2;
        proof {
            assert(2 * (samples@.len() as int / 2) <= samples@.len() as int) by (nonlinear_arith);
        }
        let mut out: Vec<i32> = Vec::new();
        let mut i: usize = 0;
        while i < frames
            invariant
                i <= frames,
                frames == samples@.len() / 2,
                2 * frames <= samples@.len(),
                samples@.len() <= usize::MAX,
                out@.len() == i,
                forall|k: int|
                    0 <= k < out@.len() ==> out@[k] == frame_mean(samples@[2 * k], samples@[2 * k + 1]),
            decreases frames - i,
        {
            let a = samples[2 * i];
            let b = samples[2 * i + 1];
            out.push(frame_mean_i32(a, b));
            i = i + 1;
        }
        proof {
            assert(out@ =~= stereo_to_mono(samples@));
        }
        return Ok(out);
    }
    Err(SampleLoadError::UnsupportedChannels { file_channels, output_channels })
}

/// The per-frame mean of two samples, rounded toward zero.
pub fn frame_mean_i32(a: i32, b: i32) -> (r: i32)
    ensures
        r == frame_mean(a, b),
{
    let sum: i64 = a as i64 + b as i64;
    let half: i64 = if sum >= 0 {
        ((sum as u64) / 2) as i64
    } else {
        -((((-sum) as u64) / 2) as i64)
    };
    proof {
        assert(half == tdiv2(a as int + b as int));
        assert(i32::MIN <= half <= i32::MAX);
    }
    half as i32
}

/// Mixing a mono signal up to stereo and back down to mono reproduces the
/// original signal exactly: both stereo channels hold the same value, and
/// the per-frame mean of two equal values is that value.
pub proof fn lemma_channel_map_round_trip(s: Seq<i32>)
    ensures
        stereo_to_mono(mono_to_stereo(s)) == s,
{
    let up = mono_to_stereo(s);
    assert forall|i: int| 0 <= i < s.len() implies stereo_to_mono(up)[i] == s[i] by {
        assert(up[2 * i] == s[(2 * i) / 2]);
        assert(up[2 * i + 1] == s[(2 * i + 1) / 2]);
        assert((2 * i) / 2 == i && (2 * i + 1) / 2 == i) by (nonlinear_arith);
        let v = s[i] as int;
        assert(tdiv2(v + v) == v) by (nonlinear_arith);
    }
    assert(stereo_to_mono(mono_to_stereo(s)) =~= s);
}

} // verus!
