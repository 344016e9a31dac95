//! The hot path: rendering one block of audio from the active voices.
//!
//! Each active, unpaused voice reads `N = round(F * tempo_ratio)` input
//! frames from its sample with wrap-around over the resolved loop window,
//! time-stretches them onto the `F` output frames of the block by repeating
//! or skipping source frames, runs every output sample through the pad's
//! 3-band EQ, applies the trigger velocity, the global volume and the pad
//! gain, and sums into the output while tracking the per-pad absolute peak.

use vstd::prelude::*;

use crate::eq3::Eq3Coeffs;
use crate::eq3::Eq3State;
use crate::eq3::EQ_OUT_MAX;
use crate::eq3::GAIN_MAX;
use crate::eq3::EQ_AMP_MAX;
use crate::eq3::spec_eq3_step;
use crate::fixed::clip;
use crate::fixed::lemma_scale_bound;
use crate::fixed::lemma_scale_within;
use crate::fixed::scale;
use crate::mixer::BufModel;
use crate::mixer::MixerModel;
use crate::mixer::buf_model;
use crate::mixer::buf_frames;
use crate::mixer::voice_model;

verus! {

/// Largest input block handed to the stretch step for one rendered block.
pub const MAX_INPUT_BLOCK: i64 = 1024;

/// The loop window of a voice resolved against its sample length: start and
/// end are clamped into the sample, and a degenerate window falls back to
/// the whole sample.
pub open spec fn spec_loop_window(ls: int, le: Option<int>, frames: int) -> (int, int) {
    let s = if ls <= frames {
        ls
    } else {
        frames
    };
    let e0 = match le {
        Some(e) => e,
        None => frames,
    };
    let e = if e0 <= frames {
        e0
    } else {
        frames
    };
    if e <= s {
        (0, frames)
    } else {
        (s, e)
    }
}

/// Number of input frames consumed for `f` output frames at a tempo ratio:
/// `f * ratio` rounded to the nearest frame, clamped into
/// `1 ..= MAX_INPUT_BLOCK`.
pub open spec fn spec_input_frames(f: int, ratio: int) -> int {
    clip((f * ratio + 500_000) / (crate::AMP_UNIT as int), 1, MAX_INPUT_BLOCK as int)
}

/// The source frame for input index `k`, wrapping around the loop window
/// `[s, s + len)` starting from offset `off0` within the window.
pub open spec fn spec_wrap_frame(s: int, len: int, off0: int, k: int) -> int {
    s + (off0 + k) % len
}

/// The clamped input sample feeding output frame `j` of channel `c`: source
/// frame `floor(j * n / f)` of the gathered block, read from the
/// interleaved sample data.
pub open spec fn spec_voice_input(
    b: BufModel,
    s: int,
    len: int,
    off0: int,
    n: int,
    f: int,
    j: int,
    c: int,
) -> int {
    let k = j * n / f;
    let fr = spec_wrap_frame(s, len, off0, k);
    clip(b.samples[fr * b.channels + c] as int, -(crate::AMP_UNIT as int), crate::AMP_UNIT as int)
}

/// The outputs of the 3-band EQ run over a whole channel of inputs.
pub open spec fn eq_outs(eq: Eq3Coeffs, st: Eq3State, ins: Seq<int>) -> Seq<int>
    decreases ins.len(),
{
    if ins.len() == 0 {
        Seq::empty()
    } else {
        let (y, st2) = spec_eq3_step(eq, st, ins[0]);
        seq![y] + eq_outs(eq, st2, ins.drop_first())
    }
}

/// The EQ state after running over a whole channel of inputs.
pub open spec fn eq_fin(eq: Eq3Coeffs, st: Eq3State, ins: Seq<int>) -> Eq3State
    decreases ins.len(),
{
    if ins.len() == 0 {
        st
    } else {
        let (y, st2) = spec_eq3_step(eq, st, ins[0]);
        eq_fin(eq, st2, ins.drop_first())
    }
}

/// Extending the input by one sample appends one EQ step to the outputs and
/// advances the final state by that step.
pub proof fn lemma_eq_chain_snoc(eq: Eq3Coeffs, st: Eq3State, ins: Seq<int>, x: int)
    ensures
        eq_outs(eq, st, ins.push(x)) == eq_outs(eq, st, ins) + seq![
            spec_eq3_step(eq, eq_fin(eq, st, ins), x).0,
        ],
        eq_fin(eq, st, ins.push(x)) == spec_eq3_step(eq, eq_fin(eq, st, ins), x).1,
    decreases ins.len(),
{
    reveal_with_fuel(eq_outs, 3);
    reveal_with_fuel(eq_fin, 3);
    if ins.len() == 0 {
        assert(ins.push(x)[0] == x);
        assert(ins.push(x).drop_first() =~= Seq::<int>::empty());
        assert(eq_outs(eq, st, ins.push(x)) =~= eq_outs(eq, st, ins) + seq![
            spec_eq3_step(eq, eq_fin(eq, st, ins), x).0,
        ]);
    } else {
        let (y, st2) = spec_eq3_step(eq, st, ins[0]);
        assert(ins.push(x).drop_first() =~= ins.drop_first().push(x));
        assert(ins.push(x)[0] == ins[0]);
        lemma_eq_chain_snoc(eq, st2, ins.drop_first(), x);
        assert(eq_outs(eq, st, ins.push(x)) =~= eq_outs(eq, st, ins) + seq![
            spec_eq3_step(eq, eq_fin(eq, st, ins), x).0,
        ]);
    }
}

/// The first `k` EQ outputs depend only on the first `k` inputs.
#[verifier::rlimit(100)]
pub proof fn lemma_eq_outs_prefix(eq: Eq3Coeffs, st: Eq3State, ins: Seq<int>, k: int)
    requires
        0 <= k <= ins.len(),
    ensures
        eq_outs(eq, st, ins.take(k)) == eq_outs(eq, st, ins).take(k),
        eq_outs(eq, st, ins).len() == ins.len(),
    decreases ins.len(),
{
    reveal_with_fuel(eq_outs, 3);
    if ins.len() == 0 {
        assert(ins.take(k) =~= ins);
        assert(eq_outs(eq, st, ins.take(k)) =~= eq_outs(eq, st, ins).take(k));
    } else {
        let (y, st2) = spec_eq3_step(eq, st, ins[0]);
        lemma_eq_outs_prefix(eq, st2, ins.drop_first(), if k == 0 { 0 } else { k - 1 });
        if k == 0 {
            assert(ins.take(0) =~= Seq::<int>::empty());
            assert(eq_outs(eq, st, ins.take(0)) =~= eq_outs(eq, st, ins).take(0));
        } else {
            assert(ins.take(k)[0] == ins[0]);
            assert(ins.take(k).drop_first() =~= ins.drop_first().take(k - 1));
            lemma_eq_outs_prefix(eq, st2, ins.drop_first(), k - 1);
            assert(eq_outs(eq, st, ins.take(k)) =~= eq_outs(eq, st, ins).take(k));
        }
    }
}

/// One EQ step's output is bounded whenever the band gains are in range,
/// whatever the crossover coefficients and the filter state are.
pub proof fn lemma_eq3_step_bound(eq: Eq3Coeffs, st: Eq3State, x: int)
    requires
        0 <= eq.gain_low <= GAIN_MAX,
        0 <= eq.gain_mid <= GAIN_MAX,
        0 <= eq.gain_high <= GAIN_MAX,
    ensures
        -EQ_OUT_MAX <= spec_eq3_step(eq, st, x).0 <= EQ_OUT_MAX,
{
    let xc = clip(x, -EQ_AMP_MAX as int, EQ_AMP_MAX as int);
    let (l1, s_low1) = crate::eq3::spec_biquad_step(eq.crossover.lp1, st.low1, xc);
    let (low, s_low2) = crate::eq3::spec_biquad_step(eq.crossover.lp2, st.low2, l1);
    let (h1, s_high1) = crate::eq3::spec_biquad_step(eq.crossover.hp1, st.high1, xc);
    let (high, s_high2) = crate::eq3::spec_biquad_step(eq.crossover.hp2, st.high2, h1);
    let mid = xc - low - high;
    lemma_scale_bound(low, eq.gain_low as int, EQ_AMP_MAX as int, GAIN_MAX as int);
    lemma_scale_bound(mid, eq.gain_mid as int, 3 * EQ_AMP_MAX as int, GAIN_MAX as int);
    lemma_scale_bound(high, eq.gain_high as int, EQ_AMP_MAX as int, GAIN_MAX as int);
}

/// Every output of an EQ chain is bounded whenever the band gains are in
/// range.
pub proof fn lemma_eq_outs_bound(eq: Eq3Coeffs, st: Eq3State, ins: Seq<int>)
    requires
        0 <= eq.gain_low <= GAIN_MAX,
        0 <= eq.gain_mid <= GAIN_MAX,
        0 <= eq.gain_high <= GAIN_MAX,
    ensures
        eq_outs(eq, st, ins).len() == ins.len(),
        forall|j: int|
            0 <= j < ins.len() ==> -EQ_OUT_MAX <= #[trigger] eq_outs(eq, st, ins)[j] <= EQ_OUT_MAX,
    decreases ins.len(),
{
    if ins.len() > 0 {
        let (y, st2) = spec_eq3_step(eq, st, ins[0]);
        lemma_eq3_step_bound(eq, st, ins[0]);
        lemma_eq_outs_bound(eq, st2, ins.drop_first());
    }
}

/// An EQ output scaled by the trigger velocity, the global volume and the
/// pad gain, each at most one unit.
pub open spec fn spec_gain3(y: int, vel: int, vol: int, gain: int) -> int {
    scale(scale(scale(y, vel), vol), gain)
}

/// The triple gain keeps a bounded EQ output bounded.
pub proof fn lemma_gain3_bound(y: int, vel: int, vol: int, gain: int)
    requires
        -EQ_OUT_MAX <= y <= EQ_OUT_MAX,
        0 <= vel <= crate::VOLUME_MAX,
        0 <= vol <= crate::VOLUME_MAX,
        0 <= gain <= crate::PAD_GAIN_MAX,
    ensures
        -EQ_OUT_MAX <= spec_gain3(y, vel, vol, gain) <= EQ_OUT_MAX,
{
    lemma_scale_within(y, vel, EQ_OUT_MAX as int);
    lemma_scale_within(scale(y, vel), vol, EQ_OUT_MAX as int);
    lemma_scale_within(scale(scale(y, vel), vol), gain, EQ_OUT_MAX as int);
}

/// The interleaved contribution (length `f * channels`) of one voice block:
/// each output sample is the EQ of the stretched, wrapped input sample,
/// scaled by the three gains.
pub open spec fn spec_block(
    b: BufModel,
    channels: int,
    s: int,
    len: int,
    off0: int,
    n: int,
    f: int,
    eq: Eq3Coeffs,
    st_l: Eq3State,
    st_r: Eq3State,
    vel: int,
    vol: int,
    gain: int,
) -> Seq<int> {
    let ins_l = Seq::new(f as nat, |j: int| spec_voice_input(b, s, len, off0, n, f, j, 0));
    let ins_r = Seq::new(f as nat, |j: int| spec_voice_input(b, s, len, off0, n, f, j, 1));
    let outs_l = eq_outs(eq, st_l, ins_l);
    let outs_r = eq_outs(eq, st_r, ins_r);
    Seq::new(
        (f * channels) as nat,
        |i: int|
            spec_gain3(
                if i % channels == 0 {
                    outs_l[i / channels]
                } else {
                    outs_r[i / channels]
                },
                vel,
                vol,
                gain,
            ),
    )
}

/// The EQ state of channel `c` after one voice block.
pub open spec fn spec_block_eq_fin(
    b: BufModel,
    s: int,
    len: int,
    off0: int,
    n: int,
    f: int,
    eq: Eq3Coeffs,
    st: Eq3State,
    c: int,
) -> Eq3State {
    eq_fin(eq, st, Seq::new(f as nat, |j: int| spec_voice_input(b, s, len, off0, n, f, j, c)))
}

/// The largest absolute value in a sequence (zero when empty).
pub open spec fn seq_abs_max(s: Seq<int>) -> int
    decreases s.len(),
{
    if s.len() == 0 {
        0
    } else {
        let prev = seq_abs_max(s.drop_last());
        let a = if s.last() >= 0 {
            s.last()
        } else {
            -s.last()
        };
        if a > prev {
            a
        } else {
            prev
        }
    }
}

/// Renders the interleaved contribution of one voice block and advances the
/// two per-channel EQ states.  The returned samples are exactly
/// `spec_block` of the inputs, each bounded by `EQ_OUT_MAX`, and the
/// running absolute peak of the block is returned alongside.
#[verifier::loop_isolation(false)]
#[verifier::rlimit(60)]
pub fn render_voice_block(
    sample: &crate::messages::SampleBuffer,
    channels: usize,
    s: usize,
    len: usize,
    off0: usize,
    n: usize,
    f: usize,
    eq: Eq3Coeffs,
    eq_left: &mut Eq3State,
    eq_right: &mut Eq3State,
    vel: i64,
    vol: i64,
    gain: i64,
) -> (r: (Vec<i64>, i64))
    requires
        channels == 1 || channels == 2,
        sample.channels == channels,
        eq.wf(),
        0 <= vel <= crate::VOLUME_MAX,
        0 <= vol <= crate::VOLUME_MAX,
        0 <= gain <= crate::PAD_GAIN_MAX,
        len > 0,
        off0 < len,
        s + len <= buf_frames(buf_model(*sample)),
        0 < n <= MAX_INPUT_BLOCK,
        f * channels <= usize::MAX,
        f <= 0x1000_0000,
        old(eq_left).wf(),
        old(eq_right).wf(),
    ensures
        r.0@.len() == f * channels,
        forall|i: int|
            0 <= i < f * channels ==> r.0@[i] as int == spec_block(
                buf_model(*sample),
                channels as int,
                s as int,
                len as int,
                off0 as int,
                n as int,
                f as int,
                eq,
                *old(eq_left),
                *old(eq_right),
                vel as int,
                vol as int,
                gain as int,
            )[i],
        forall|i: int| 0 <= i < f * channels ==> -EQ_OUT_MAX <= #[trigger] r.0@[i] <= EQ_OUT_MAX,
        *final(eq_left) == spec_block_eq_fin(
            buf_model(*sample),
            s as int,
            len as int,
            off0 as int,
            n as int,
            f as int,
            eq,
            *old(eq_left),
            0,
        ),
        channels == 2 ==> *final(eq_right) == spec_block_eq_fin(
            buf_model(*sample),
            s as int,
            len as int,
            off0 as int,
            n as int,
            f as int,
            eq,
            *old(eq_right),
            1,
        ),
        channels == 1 ==> *final(eq_right) == *old(eq_right),
        r.1 == seq_abs_max(
            spec_block(
                buf_model(*sample),
                channels as int,
                s as int,
                len as int,
                off0 as int,
                n as int,
                f as int,
                eq,
                *old(eq_left),
                *old(eq_right),
                vel as int,
                vol as int,
                gain as int,
            ),
        ),
        0 <= r.1 <= EQ_OUT_MAX,
        final(eq_left).wf(),
        final(eq_right).wf(),
{
    let ghost b = buf_model(*sample);
    let ghost ins_l = Seq::new(
        f as nat,
        |j: int| spec_voice_input(b, s as int, len as int, off0 as int, n as int, f as int, j, 0),
    );
    let ghost ins_r = Seq::new(
        f as nat,
        |j: int| spec_voice_input(b, s as int, len as int, off0 as int, n as int, f as int, j, 1),
    );
    let ghost cv = spec_block(
        b,
        channels as int,
        s as int,
        len as int,
        off0 as int,
        n as int,
        f as int,
        eq,
        *old(eq_left),
        *old(eq_right),
        vel as int,
        vol as int,
        gain as int,
    );
    let ghost st_l0 = *eq_left;
    let ghost st_r0 = *eq_right;
    proof {
        lemma_eq_outs_bound(eq, st_l0, ins_l);
        lemma_eq_outs_bound(eq, st_r0, ins_r);
    }
    let mut out: Vec<i64> = Vec::new();
    let mut peak: i64 = 0;
    let mut j: usize = 0;
    while j < f
        invariant
            j <= f,
            out@.len() == j * channels,
            forall|i: int| 0 <= i < j * channels ==> out@[i] as int == cv[i],
            forall|i: int| 0 <= i < j * channels ==> -EQ_OUT_MAX <= #[trigger] out@[i] <= EQ_OUT_MAX,
            *eq_left == eq_fin(eq, st_l0, ins_l.take(j as int)),
            channels == 2 ==> *eq_right == eq_fin(eq, st_r0, ins_r.take(j as int)),
            channels == 1 ==> *eq_right == st_r0,
            peak == seq_abs_max(cv.take((j * channels) as int)),
            0 <= peak <= EQ_OUT_MAX,
            eq_left.wf(),
            eq_right.wf(),
        decreases f - j,
    {
        let x0 = read_input(sample, channels, s, len, off0, n, f, j, 0);
        proof {
            assert(ins_l.take(j as int + 1) =~= ins_l.take(j as int).push(ins_l[j as int]));
            lemma_eq_chain_snoc(eq, st_l0, ins_l.take(j as int), ins_l[j as int]);
            assert(x0 as int == ins_l[j as int]);
        }
        let y0 = eq.process(eq_left, x0);
        let c0 = gain3(y0, vel, vol, gain);
        proof {
            lemma_eq_outs_prefix(eq, st_l0, ins_l, j as int + 1);
            lemma_eq_outs_bound(eq, st_l0, ins_l.take(j as int));
            assert(eq_outs(eq, st_l0, ins_l.take(j as int + 1))[j as int] == y0 as int);
            assert(eq_outs(eq, st_l0, ins_l)[j as int] == y0 as int);
            lemma_index_split(j as int, 0, channels as int);
            assert(cv[(j * channels) as int] == c0 as int);
            assert(cv.take((j * channels + 1) as int) =~= cv.take((j * channels) as int).push(
                cv[(j * channels) as int],
            ));
            assert(cv.take((j * channels + 1) as int).drop_last() =~= cv.take(
                (j * channels) as int,
            ));
            assert(cv.take((j * channels + 1) as int).last() == cv[(j * channels) as int]);
        }
        out.push(c0);
        peak = max_abs(peak, c0);
        proof {
            assert(peak == seq_abs_max(cv.take((j * channels + 1) as int)));
        }
        if channels == 2 {
            let x1 = read_input(sample, channels, s, len, off0, n, f, j, 1);
            proof {
                assert(ins_r.take(j as int + 1) =~= ins_r.take(j as int).push(ins_r[j as int]));
                lemma_eq_chain_snoc(eq, st_r0, ins_r.take(j as int), ins_r[j as int]);
                assert(x1 as int == ins_r[j as int]);
            }
            let y1 = eq.process(eq_right, x1);
            let c1 = gain3(y1, vel, vol, gain);
            proof {
                lemma_eq_outs_prefix(eq, st_r0, ins_r, j as int + 1);
                lemma_eq_outs_bound(eq, st_r0, ins_r.take(j as int));
                assert(eq_outs(eq, st_r0, ins_r.take(j as int + 1))[j as int] == y1 as int);
                assert(eq_outs(eq, st_r0, ins_r)[j as int] == y1 as int);
                lemma_index_split(j as int, 1, channels as int);
                assert(cv[(j * channels + 1) as int] == c1 as int);
                assert(cv.take((j * channels + 2) as int) =~= cv.take(
                    (j * channels + 1) as int,
                ).push(cv[(j * channels + 1) as int]));
                assert(cv.take((j * channels + 2) as int).drop_last() =~= cv.take(
                    (j * channels + 1) as int,
                ));
                assert(cv.take((j * channels + 2) as int).last() == cv[(j * channels + 1) as int]);
            }
            out.push(c1);
            peak = max_abs(peak, c1);
            proof {
                assert(peak == seq_abs_max(cv.take((j * channels + 2) as int)));
            }
        }
        proof {
            assert(((j + 1) as int) * (channels as int) == (j as int) * (channels as int) + (
            channels as int)) by (nonlinear_arith);
            assert(peak == seq_abs_max(cv.take(((j + 1) * channels) as int)));
        }
        j = j + 1;
    }
    proof {
        assert(ins_l.take(f as int) =~= ins_l);
        assert(ins_r.take(f as int) =~= ins_r);
        assert(cv.take((f * channels) as int) =~= cv);
    }
    (out, peak)
}

/// The running maximum of an absolute value.
fn max_abs(prev: i64, x: i64) -> (r: i64)
    requires
        prev >= 0,
        -EQ_OUT_MAX <= x <= EQ_OUT_MAX,
        prev <= EQ_OUT_MAX,
    ensures
        r == ({
            let a: int = if x >= 0 {
                x as int
            } else {
                -(x as int)
            };
            if a > prev {
                a
            } else {
                prev as int
            }
        }),
        0 <= r <= EQ_OUT_MAX,
{
    let a: i64 = if x >= 0 {
        x
    } else {
        -x
    };
    if a > prev {
        a
    } else {
        prev
    }
}

/// `j * channels + c` split into quotient and remainder.
proof fn lemma_index_split(j: int, c: int, channels: int)
    requires
        0 <= j,
        0 <= c < channels,
    ensures
        (j * channels + c) / channels == j,
        (j * channels + c) % channels == c,
{
    vstd::arithmetic::div_mod::lemma_div_multiples_vanish_fancy(j, c, channels);
    assert(channels * j == j * channels) by (nonlinear_arith);
    vstd::arithmetic::div_mod::lemma_fundamental_div_mod(j * channels + c, channels);
    assert((j * channels + c) % channels == (j * channels + c) - channels * ((j * channels + c)
        / channels));
    assert(channels * ((j * channels + c) / channels) == channels * j);
    assert((j * channels + c) - channels * j == c) by (nonlinear_arith);
}

/// Reads the clamped input sample feeding output frame `j` of channel `c`.
fn read_input(
    sample: &crate::messages::SampleBuffer,
    channels: usize,
    s: usize,
    len: usize,
    off0: usize,
    n: usize,
    f: usize,
    j: usize,
    c: usize,
) -> (r: i64)
    requires
        channels == 1 || channels == 2,
        sample.channels == channels,
        c < channels,
        len > 0,
        off0 < len,
        s + len <= buf_frames(buf_model(*sample)),
        0 < n <= MAX_INPUT_BLOCK,
        j < f,
        f <= 0x1000_0000,
    ensures
        r as int == spec_voice_input(
            buf_model(*sample),
            s as int,
            len as int,
            off0 as int,
            n as int,
            f as int,
            j as int,
            c as int,
        ),
        -crate::AMP_UNIT <= r <= crate::AMP_UNIT,
{
    let total = sample.samples.len();
    proof {
        crate::fixed::mul_bound(j as int, 0x1000_0000, n as int, 1024);
        assert((j as int) * (n as int) < (f as int) * (n as int)) by (nonlinear_arith)
            requires
                0 <= j < f,
                n > 0,
        ;
        vstd::arithmetic::div_mod::lemma_multiply_divide_lt(
            (j as int) * (n as int),
            f as int,
            n as int,
        );
        vstd::arithmetic::div_mod::lemma_div_pos_is_pos((j as int) * (n as int), f as int);
    }
    let k: usize = (((j as u64) * (n as u64)) / (f as u64)) as usize;
    let src: usize = (((off0 as u128) + (k as u128)) % (len as u128)) as usize;
    let ghost b = buf_model(*sample);
    let ghost frames = buf_frames(b);
    proof {
        vstd::arithmetic::div_mod::lemma_div_nonincreasing(total as int, channels as int);
        vstd::arithmetic::div_mod::lemma_div_pos_is_pos(total as int, channels as int);
        vstd::arithmetic::div_mod::lemma_mod_bound(off0 as int + k as int, len as int);
        assert(s + src < frames <= total);
    }
    let fr: usize = s + src;
    proof {
        vstd::arithmetic::div_mod::lemma_mod_division_less_than_divisor(
            off0 as int + k as int,
            len as int,
        );
        vstd::arithmetic::div_mod::lemma_mod_bound(off0 as int + k as int, len as int);
        assert(fr < frames);
        assert((frames as int) * (channels as int) <= b.samples.len() as int) by {
            vstd::arithmetic::div_mod::lemma_fundamental_div_mod(
                b.samples.len() as int,
                channels as int,
            );
            vstd::arithmetic::div_mod::lemma_mod_bound(b.samples.len() as int, channels as int);
            assert((channels as int) * frames == frames * (channels as int)) by (nonlinear_arith);
        }
        assert((fr as int) * (channels as int) + (c as int) < (frames as int) * (channels as int))
            by (nonlinear_arith)
            requires
                0 <= fr < frames,
                0 <= c < channels,
                channels > 0,
        ;
    }
    let idx: usize = fr * channels + c;
    let v: i32 = sample.samples[idx];
    let v64: i64 = v as i64;
    if v64 < -crate::AMP_UNIT {
        -crate::AMP_UNIT
    } else if v64 > crate::AMP_UNIT {
        crate::AMP_UNIT
    } else {
        v64
    }
}

/// Scales an EQ output by the trigger velocity, the global volume and the
/// pad gain.
fn gain3(y: i64, vel: i64, vol: i64, gain: i64) -> (r: i64)
    requires
        -EQ_OUT_MAX <= y <= EQ_OUT_MAX,
        0 <= vel <= crate::VOLUME_MAX,
        0 <= vol <= crate::VOLUME_MAX,
        0 <= gain <= crate::PAD_GAIN_MAX,
    ensures
        r as int == spec_gain3(y as int, vel as int, vol as int, gain as int),
        -EQ_OUT_MAX <= r <= EQ_OUT_MAX,
{
    proof {
        lemma_scale_within(y as int, vel as int, EQ_OUT_MAX as int);
        lemma_scale_within(scale(y as int, vel as int), vol as int, EQ_OUT_MAX as int);
        lemma_scale_within(
            scale(scale(y as int, vel as int), vol as int),
            gain as int,
            EQ_OUT_MAX as int,
        );
    }
    let a = crate::fixed::scale_i64(y, vel);
    let bb = crate::fixed::scale_i64(a, vol);
    crate::fixed::scale_i64(bb, gain)
}


/// Whether a voice produces audio in this block: it is active, not paused,
/// and holds a non-empty sample.
pub open spec fn voice_renders(m: MixerModel, v: int) -> bool {
    let vm = m.voices[v];
    &&& vm.active
    &&& !vm.paused
    &&& vm.sample is Some
    &&& buf_frames(vm.sample->0) > 0
}

/// The interleaved contribution of voice `v` to a block of `f` frames
/// (all zeros when the voice does not render).
pub open spec fn voice_contrib(m: MixerModel, v: int, f: int) -> Seq<int> {
    if voice_renders(m, v) {
        let vm = m.voices[v];
        let b = vm.sample->0;
        let id = vm.sample_id;
        let (s, e) = spec_loop_window(m.pad_loop_start[id], m.pad_loop_end[id], buf_frames(b));
        let pos0 = if s <= vm.frame_pos && vm.frame_pos < e {
            vm.frame_pos
        } else {
            s
        };
        let rt = crate::voice_slot::spec_smooth_tempo(vm.tempo_ratio, crate::mixer::spec_effective_ratio(m, id));
        let n = spec_input_frames(f, rt);
        spec_block(
            b,
            m.channels,
            s,
            e - s,
            pos0 - s,
            n,
            f,
            m.pad_eq[id],
            vm.eq_left,
            vm.eq_right,
            vm.volume,
            m.volume,
            m.pad_gain[id],
        )
    } else {
        Seq::new((f * m.channels) as nat, |i: int| 0)
    }
}

/// The state of voice `v` after a block of `f` frames: an inactive or
/// paused voice is untouched, a voice whose sample is gone or empty is
/// stopped, and a rendering voice advances its cursor over the loop window
/// by the consumed input frames, carries the smoothed tempo ratio and the
/// advanced EQ state.
pub open spec fn voice_after(m: MixerModel, v: int, f: int) -> crate::mixer::VoiceModel {
    let vm = m.voices[v];
    if !vm.active {
        vm
    } else if !(vm.sample is Some) || buf_frames(vm.sample->0) <= 0 {
        crate::mixer::stopped_voice_model()
    } else if vm.paused {
        vm
    } else {
        let b = vm.sample->0;
        let id = vm.sample_id;
        let (s, e) = spec_loop_window(m.pad_loop_start[id], m.pad_loop_end[id], buf_frames(b));
        let pos0 = if s <= vm.frame_pos && vm.frame_pos < e {
            vm.frame_pos
        } else {
            s
        };
        let rt = crate::voice_slot::spec_smooth_tempo(vm.tempo_ratio, crate::mixer::spec_effective_ratio(m, id));
        let n = spec_input_frames(f, rt);
        crate::mixer::VoiceModel {
            frame_pos: s + (pos0 - s + n) % (e - s),
            tempo_ratio: rt,
            eq_left: spec_block_eq_fin(b, s, e - s, pos0 - s, n, f, m.pad_eq[id], vm.eq_left, 0),
            eq_right: if m.channels == 2 {
                spec_block_eq_fin(b, s, e - s, pos0 - s, n, f, m.pad_eq[id], vm.eq_right, 1)
            } else {
                vm.eq_right
            },
            ..vm
        }
    }
}

/// Element-wise sum of two equally long sequences.
pub open spec fn seq_add(a: Seq<int>, b: Seq<int>) -> Seq<int>
    recommends
        a.len() == b.len(),
{
    Seq::new(a.len(), |i: int| a[i] + b[i])
}

/// The mix of the contributions of the first `nv` voices.
pub open spec fn spec_mix(m: MixerModel, nv: int, f: int) -> Seq<int>
    decreases nv,
{
    if nv <= 0 {
        Seq::new((f * m.channels) as nat, |i: int| 0)
    } else {
        seq_add(spec_mix(m, nv - 1, f), voice_contrib(m, nv - 1, f))
    }
}

/// The absolute peak of pad `id` over the contributions of the first `nv`
/// voices.
pub open spec fn spec_pad_peak(m: MixerModel, id: int, f: int, nv: int) -> int
    decreases nv,
{
    if nv <= 0 {
        0
    } else {
        let prev = spec_pad_peak(m, id, f, nv - 1);
        let this = if voice_renders(m, nv - 1) && m.voices[nv - 1].sample_id == id {
            seq_abs_max(voice_contrib(m, nv - 1, f))
        } else {
            0
        };
        if this > prev {
            this
        } else {
            prev
        }
    }
}

/// The playhead of pad `id` after the first `nv` voices have rendered: the
/// advanced cursor of the last rendering voice of that pad, if any.
pub open spec fn spec_playhead(m: MixerModel, id: int, f: int, nv: int) -> Option<int>
    decreases nv,
{
    if nv <= 0 {
        None
    } else if voice_renders(m, nv - 1) && m.voices[nv - 1].sample_id == id {
        Some(voice_after(m, nv - 1, f).frame_pos)
    } else {
        spec_playhead(m, id, f, nv - 1)
    }
}

/// The mixer state after rendering a block of `f` frames: every voice is
/// advanced and the playheads are rewritten; everything else is untouched.
pub open spec fn spec_render_state(m: MixerModel, f: int) -> MixerModel {
    MixerModel {
        voices: Seq::new(m.voices.len(), |v: int| voice_after(m, v, f)),
        pad_playhead: Seq::new(
            m.pad_playhead.len(),
            |id: int| spec_playhead(m, id, f, crate::MAX_VOICES as int),
        ),
        ..m
    }
}

/// Every sample of a voice contribution is bounded by `EQ_OUT_MAX`, and the
/// contribution has one entry per output sample.
pub proof fn lemma_voice_contrib_bound(m: MixerModel, v: int, f: int)
    requires
        crate::mixer::wf_model(m),
        0 <= v < crate::MAX_VOICES,
        0 <= f,
    ensures
        voice_contrib(m, v, f).len() == f * m.channels,
        forall|i: int|
            0 <= i < f * m.channels ==> -EQ_OUT_MAX <= #[trigger] voice_contrib(m, v, f)[i]
                <= EQ_OUT_MAX,
{
    if voice_renders(m, v) {
        let vm = m.voices[v];
        let b = vm.sample->0;
        let id = vm.sample_id;
        let (s, e) = spec_loop_window(m.pad_loop_start[id], m.pad_loop_end[id], buf_frames(b));
        let pos0 = if s <= vm.frame_pos && vm.frame_pos < e {
            vm.frame_pos
        } else {
            s
        };
        let rt = crate::voice_slot::spec_smooth_tempo(vm.tempo_ratio, crate::mixer::spec_effective_ratio(m, id));
        let n = spec_input_frames(f, rt);
        let eq = m.pad_eq[id];
        let ins_l = Seq::new(f as nat, |j: int| spec_voice_input(b, s, e - s, pos0 - s, n, f, j, 0));
        let ins_r = Seq::new(f as nat, |j: int| spec_voice_input(b, s, e - s, pos0 - s, n, f, j, 1));
        lemma_eq_outs_bound(eq, vm.eq_left, ins_l);
        lemma_eq_outs_bound(eq, vm.eq_right, ins_r);
        assert forall|i: int| 0 <= i < f * m.channels implies -EQ_OUT_MAX <= #[trigger] voice_contrib(
            m,
            v,
            f,
        )[i] <= EQ_OUT_MAX by {
            assert(0 <= i % m.channels < m.channels) by {
                vstd::arithmetic::div_mod::lemma_mod_bound(i, m.channels);
            }
            assert(0 <= i / m.channels < f) by {
                vstd::arithmetic::div_mod::lemma_div_pos_is_pos(i, m.channels);
                assert(i < m.channels * f) by (nonlinear_arith)
                    requires
                        i < f * m.channels,
                ;
                vstd::arithmetic::div_mod::lemma_multiply_divide_lt(i, m.channels, f);
            }
            let y = if i % m.channels == 0 {
                eq_outs(eq, vm.eq_left, ins_l)[i / m.channels]
            } else {
                eq_outs(eq, vm.eq_right, ins_r)[i / m.channels]
            };
            lemma_gain3_bound(y, vm.volume, m.volume, m.pad_gain[id]);
        }
    }
}

/// Every sample of the mix of the first `nv` voices is bounded by
/// `nv * EQ_OUT_MAX`.
pub proof fn lemma_mix_bound(m: MixerModel, nv: int, f: int)
    requires
        crate::mixer::wf_model(m),
        0 <= nv <= crate::MAX_VOICES,
        0 <= f,
    ensures
        spec_mix(m, nv, f).len() == f * m.channels,
        forall|i: int|
            0 <= i < f * m.channels ==> -(nv * EQ_OUT_MAX) <= #[trigger] spec_mix(m, nv, f)[i] <= nv
                * EQ_OUT_MAX,
    decreases nv,
{
    if nv > 0 {
        lemma_mix_bound(m, nv - 1, f);
        lemma_voice_contrib_bound(m, nv - 1, f);
        assert forall|i: int| 0 <= i < f * m.channels implies -(nv * EQ_OUT_MAX)
            <= #[trigger] spec_mix(m, nv, f)[i] <= nv * EQ_OUT_MAX by {
            assert((nv - 1) * EQ_OUT_MAX + EQ_OUT_MAX == nv * EQ_OUT_MAX) by (nonlinear_arith);
        }
    }
}

/// The per-pad peak is non-negative and bounded by `EQ_OUT_MAX`.
pub proof fn lemma_pad_peak_bounds(m: MixerModel, id: int, f: int, nv: int)
    requires
        crate::mixer::wf_model(m),
        0 <= nv <= crate::MAX_VOICES,
        0 <= f,
    ensures
        0 <= spec_pad_peak(m, id, f, nv) <= EQ_OUT_MAX,
    decreases nv,
{
    if nv > 0 {
        lemma_pad_peak_bounds(m, id, f, nv - 1);
        if voice_renders(m, nv - 1) && m.voices[nv - 1].sample_id == id {
            lemma_voice_contrib_bound(m, nv - 1, f);
            lemma_seq_abs_max_bound(voice_contrib(m, nv - 1, f));
        }
    }
}

/// The absolute maximum of a sequence of bounded values is bounded, and it
/// is never negative.
pub proof fn lemma_seq_abs_max_bound(s: Seq<int>)
    ensures
        0 <= seq_abs_max(s),
        (forall|i: int| 0 <= i < s.len() ==> -EQ_OUT_MAX <= #[trigger] s[i] <= EQ_OUT_MAX)
            ==> seq_abs_max(s) <= EQ_OUT_MAX,
    decreases s.len(),
{
    if s.len() > 0 {
        lemma_seq_abs_max_bound(s.drop_last());
        assert(forall|i: int| 0 <= i < s.drop_last().len() ==> s.drop_last()[i] == s[i]);
    }
}


impl crate::mixer::RtMixer {
    /// Renders one block: applies every active voice into `out` (interleaved,
    /// `out.len() / channels` frames) and writes the per-pad absolute peaks
    /// of the block into `peaks`.  Output samples beyond the last whole
    /// frame are zeroed.  With no rendering voice the block is exact
    /// silence.
    #[verifier::loop_isolation(false)]
    #[verifier::rlimit(60)]
    pub fn render(&mut self, out: &mut Vec<i64>, peaks: &mut Vec<i64>)
        requires
            old(self).wf(),
            old(out)@.len() <= 0x1000_0000,
            old(peaks)@.len() == crate::NUM_SAMPLES,
        ensures
            final(self).wf(),
            final(out)@.len() == old(out)@.len(),
            final(peaks)@.len() == crate::NUM_SAMPLES,
            ({
                let m0 = old(self).model();
                let f = old(out)@.len() as int / m0.channels;
                let fc = f * m0.channels;
                &&& final(self).model() == spec_render_state(m0, f)
                &&& forall|i: int|
                    0 <= i < fc ==> final(out)@[i] as int == spec_mix(
                        m0,
                        crate::MAX_VOICES as int,
                        f,
                    )[i]
                &&& forall|i: int| fc <= i < final(out)@.len() ==> final(out)@[i] == 0
                &&& forall|id: int|
                    0 <= id < crate::NUM_SAMPLES ==> final(peaks)@[id] as int == spec_pad_peak(
                        m0,
                        id,
                        f,
                        crate::MAX_VOICES as int,
                    )
            }),
    {
        let ghost m0 = self.model();
        let olen = out.len();
        let channels = self.channels;
        let f = olen / channels;
        let ghost fc = f as int * m0.channels;
        proof {
            vstd::arithmetic::div_mod::lemma_fundamental_div_mod(olen as int, channels as int);
            vstd::arithmetic::div_mod::lemma_mod_bound(olen as int, channels as int);
            assert((channels as int) * (f as int) == (f as int) * (channels as int))
                by (nonlinear_arith);
            assert(fc <= olen);
        }
        out.clear();
        let mut z: usize = 0;
        while z < olen
            invariant
                out@.len() == z,
                z <= olen,
                forall|i: int| 0 <= i < z as int ==> out@[i] == 0,
            decreases olen - z,
        {
            out.push(0);
            z = z + 1;
        }
        peaks.clear();
        let mut zp: usize = 0;
        while zp < crate::NUM_SAMPLES
            invariant
                peaks@.len() == zp,
                zp <= crate::NUM_SAMPLES,
                forall|i: int| 0 <= i < zp as int ==> peaks@[i] == 0,
            decreases crate::NUM_SAMPLES - zp,
        {
            peaks.push(0);
            zp = zp + 1;
        }
        let mut p: usize = 0;
        while p < crate::NUM_SAMPLES
            invariant
                p <= crate::NUM_SAMPLES,
                self.wf(),
                self.model() == (MixerModel {
                    pad_playhead: Seq::new(
                        m0.pad_playhead.len(),
                        |k: int|
                            if k < p as int {
                                None
                            } else {
                                m0.pad_playhead[k]
                            },
                    ),
                    ..m0
                }),
            decreases crate::NUM_SAMPLES - p,
        {
            let ghost pprev = self.pad_playhead@;
            let ghost m_before = self.model();
            self.pad_playhead[p] = None;
            proof {
                assert(self.pad_playhead@ =~= pprev.update(p as int, None));
                assert forall|k: int| 0 <= k < m0.pad_playhead.len() implies
                    self.model().pad_playhead[k] == (if k < (p + 1) as int {
                        None
                    } else {
                        m0.pad_playhead[k]
                    }) by {
                    assert(self.model().pad_playhead[k] == (match self.pad_playhead@[k] {
                        Some(q) => Some(q as int),
                        None => None,
                    }));
                    assert(m_before.pad_playhead[k] == (match pprev[k] {
                        Some(q) => Some(q as int),
                        None => None,
                    }));
                }
                assert(self.model().pad_playhead =~= Seq::new(
                    m0.pad_playhead.len(),
                    |k: int|
                        if k < (p + 1) as int {
                            None
                        } else {
                            m0.pad_playhead[k]
                        },
                ));
                assert(self.model() =~= (MixerModel {
                    pad_playhead: Seq::new(
                        m0.pad_playhead.len(),
                        |k: int|
                            if k < (p + 1) as int {
                                None
                            } else {
                                m0.pad_playhead[k]
                            },
                    ),
                    ..m0
                }));
            }
            p = p + 1;
        }
        proof {
            assert(self.model().pad_playhead =~= Seq::new(
                m0.pad_playhead.len(),
                |id: int| spec_playhead(m0, id, f as int, 0),
            ));
            assert(self.model() =~= mid_render_state(m0, f as int, 0));
            lemma_mix_bound(m0, 0, f as int);
            assert forall|i: int| 0 <= i < fc implies out@[i] as int == spec_mix(
                m0,
                0,
                f as int,
            )[i] by {}
        }
        let mut v: usize = 0;
        while v < crate::MAX_VOICES
            invariant
                v <= crate::MAX_VOICES,
                self.wf(),
                self.model() == mid_render_state(m0, f as int, v as int),
                out@.len() == olen,
                forall|i: int| 0 <= i < fc ==> out@[i] as int == spec_mix(m0, v as int, f as int)[i],
                forall|i: int| fc <= i < olen ==> out@[i] == 0,
                peaks@.len() == crate::NUM_SAMPLES,
                forall|id: int|
                    0 <= id < crate::NUM_SAMPLES ==> peaks@[id] as int == spec_pad_peak(
                        m0,
                        id,
                        f as int,
                        v as int,
                    ),
            decreases crate::MAX_VOICES - v,
        {
            self.step_voice(v, f, out, peaks, Ghost(m0));
            v = v + 1;
        }
        proof {
            assert(self.model() =~= spec_render_state(m0, f as int));
        }
    }
}

/// The mixer state in the middle of a render, after the first `v` voices.
pub open spec fn mid_render_state(m: MixerModel, f: int, v: int) -> MixerModel {
    MixerModel {
        voices: Seq::new(
            m.voices.len(),
            |k: int|
                if k < v {
                    voice_after(m, k, f)
                } else {
                    m.voices[k]
                },
        ),
        pad_playhead: Seq::new(m.pad_playhead.len(), |id: int| spec_playhead(m, id, f, v)),
        ..m
    }
}

/// One EQ step always leaves a well-formed (clamped) filter state.
proof fn lemma_eq3_step_state_wf(eq: Eq3Coeffs, st: Eq3State, x: int)
    ensures
        spec_eq3_step(eq, st, x).1.wf(),
{
}

/// Running the EQ over any inputs keeps the filter state well-formed.
proof fn lemma_eq_fin_wf(eq: Eq3Coeffs, st: Eq3State, ins: Seq<int>)
    requires
        st.wf(),
    ensures
        eq_fin(eq, st, ins).wf(),
    decreases ins.len(),
{
    if ins.len() > 0 {
        let (y, st2) = spec_eq3_step(eq, st, ins[0]);
        lemma_eq3_step_state_wf(eq, st, ins[0]);
        lemma_eq_fin_wf(eq, st2, ins.drop_first());
    }
}

/// The state in the middle of a render stays well-formed: every advanced
/// voice keeps its sample handle, its clamped tempo ratio and a clamped EQ
/// state.
proof fn lemma_mid_render_wf(m0: MixerModel, f: int, v: int)
    requires
        crate::mixer::wf_model(m0),
        0 <= v <= crate::MAX_VOICES,
        0 <= f,
    ensures
        crate::mixer::wf_model(mid_render_state(m0, f, v)),
{
    let m = mid_render_state(m0, f, v);
    assert forall|k: int| 0 <= k < crate::MAX_VOICES implies crate::mixer::wf_voice(
        #[trigger] m.voices[k],
        m.channels,
    ) by {
        if k < v {
            let vm = m0.voices[k];
            if vm.active && vm.sample is Some && buf_frames(vm.sample->0) > 0 && !vm.paused {
                let b = vm.sample->0;
                let id = vm.sample_id;
                let (s, e) = spec_loop_window(
                    m0.pad_loop_start[id],
                    m0.pad_loop_end[id],
                    buf_frames(b),
                );
                let pos0 = if s <= vm.frame_pos && vm.frame_pos < e {
                    vm.frame_pos
                } else {
                    s
                };
                let rt = crate::voice_slot::spec_smooth_tempo(
                    vm.tempo_ratio,
                    crate::mixer::spec_effective_ratio(m0, id),
                );
                let n = spec_input_frames(f, rt);
                let ins_l = Seq::new(
                    f as nat,
                    |j: int| spec_voice_input(b, s, e - s, pos0 - s, n, f, j, 0),
                );
                let ins_r = Seq::new(
                    f as nat,
                    |j: int| spec_voice_input(b, s, e - s, pos0 - s, n, f, j, 1),
                );
                lemma_eq_fin_wf(m0.pad_eq[id], vm.eq_left, ins_l);
                lemma_eq_fin_wf(m0.pad_eq[id], vm.eq_right, ins_r);
            }
        }
    }
}

/// Skipping a voice (one that does not render) leaves the mix, the peaks
/// and the playheads of the block unchanged.
proof fn lemma_skip_voice(m0: MixerModel, v: int, f: int)
    requires
        crate::mixer::wf_model(m0),
        0 <= v < crate::MAX_VOICES,
        0 <= f,
        !voice_renders(m0, v),
    ensures
        forall|i: int|
            0 <= i < f * m0.channels ==> #[trigger] spec_mix(m0, v + 1, f)[i] == spec_mix(
                m0,
                v,
                f,
            )[i],
        forall|id: int|
            #[trigger] spec_pad_peak(m0, id, f, v + 1) == spec_pad_peak(m0, id, f, v),
        forall|id: int| #[trigger] spec_playhead(m0, id, f, v + 1) == spec_playhead(m0, id, f, v),
{
    lemma_mix_bound(m0, v, f);
    assert forall|i: int| 0 <= i < f * m0.channels implies #[trigger] spec_mix(m0, v + 1, f)[i]
        == spec_mix(m0, v, f)[i] by {
        assert(voice_contrib(m0, v, f)[i] == 0);
    }
    assert forall|id: int| #[trigger] spec_pad_peak(m0, id, f, v + 1) == spec_pad_peak(
        m0,
        id,
        f,
        v,
    ) by {
        lemma_pad_peak_bounds(m0, id, f, v);
    }
}

impl crate::mixer::RtMixer {
    /// Applies voice `v` to the current block: mixes its contribution into
    /// `out`, folds its absolute peak into `peaks`, records its playhead and
    /// advances its cursor.
    #[verifier::loop_isolation(false)]
    #[verifier::rlimit(100)]
    fn step_voice(
        &mut self,
        v: usize,
        f: usize,
        out: &mut Vec<i64>,
        peaks: &mut Vec<i64>,
        Ghost(m0): Ghost<MixerModel>,
    )
        requires
            crate::mixer::wf_model(m0),
            old(self).wf(),
            v < crate::MAX_VOICES,
            f <= 0x1000_0000,
            old(self).model() == mid_render_state(m0, f as int, v as int),
            old(out)@.len() >= f * m0.channels,
            old(out)@.len() <= 0x1000_0000,
            forall|i: int|
                0 <= i < f * m0.channels ==> old(out)@[i] as int == spec_mix(
                    m0,
                    v as int,
                    f as int,
                )[i],
            old(peaks)@.len() == crate::NUM_SAMPLES,
            forall|id: int|
                0 <= id < crate::NUM_SAMPLES ==> old(peaks)@[id] as int == spec_pad_peak(
                    m0,
                    id,
                    f as int,
                    v as int,
                ),
        ensures
            final(self).wf(),
            final(self).model() == mid_render_state(m0, f as int, v as int + 1),
            final(out)@.len() == old(out)@.len(),
            forall|i: int|
                0 <= i < f * m0.channels ==> final(out)@[i] as int == spec_mix(
                    m0,
                    v as int + 1,
                    f as int,
                )[i],
            forall|i: int|
                f * m0.channels <= i < old(out)@.len() ==> final(out)@[i] == old(out)@[i],
            final(peaks)@.len() == crate::NUM_SAMPLES,
            forall|id: int|
                0 <= id < crate::NUM_SAMPLES ==> final(peaks)@[id] as int == spec_pad_peak(
                    m0,
                    id,
                    f as int,
                    v as int + 1,
                ),
    {
        let ghost fi = f as int;
        let ghost vm = m0.voices[v as int];
        let channels = self.channels;
        proof {
            assert(self.model().voices[v as int] == voice_model(self.voices@[v as int]));
            assert(mid_render_state(m0, fi, v as int).voices[v as int] == m0.voices[v as int]);
            assert(voice_model(self.voices@[v as int]) == vm);
            assert(channels as int == m0.channels);
        }
        if !self.voices[v].active {
            proof {
                lemma_skip_voice(m0, v as int, fi);
                assert(voice_after(m0, v as int, fi) == vm);
                assert(self.model().voices =~= mid_render_state(m0, fi, v as int + 1).voices);
                assert(self.model().pad_playhead =~= mid_render_state(
                    m0,
                    fi,
                    v as int + 1,
                ).pad_playhead);
                lemma_mid_render_wf(m0, fi, v as int + 1);
                assert(self.model() =~= mid_render_state(m0, fi, v as int + 1));
            }
            return;
        }
        let has = match &self.voices[v].sample {
            Some(_) => true,
            None => false,
        };
        let frames = match &self.voices[v].sample {
            Some(b) => b.samples.len() / channels,
            None => 0,
        };
        proof {
            if has {
                assert(frames as int == buf_frames(vm.sample->0));
            }
        }
        if has == false || frames == 0 {
            let ghost vprev = self.voices@;
            let ghost m_before = self.model();
            self.voices[v].stop();
            proof {
                lemma_skip_voice(m0, v as int, fi);
                assert(voice_after(m0, v as int, fi) == crate::mixer::stopped_voice_model());
                assert(self.voices@ =~= vprev.update(
                    v as int,
                    crate::voice_slot::spec_stopped_slot(),
                ));
                assert forall|k: int| 0 <= k < m0.voices.len() implies self.model().voices[k]
                    == mid_render_state(m0, fi, v as int + 1).voices[k] by {
                    assert(self.model().voices[k] == voice_model(self.voices@[k]));
                    assert(m_before.voices[k] == voice_model(vprev[k]));
                    assert(voice_model(crate::voice_slot::spec_stopped_slot())
                        =~= crate::mixer::stopped_voice_model());
                }
                assert(self.model().voices =~= mid_render_state(m0, fi, v as int + 1).voices);
                assert(self.model().pad_playhead =~= mid_render_state(
                    m0,
                    fi,
                    v as int + 1,
                ).pad_playhead);
                lemma_mid_render_wf(m0, fi, v as int + 1);
                assert(self.model() =~= mid_render_state(m0, fi, v as int + 1));
            }
            return;
        }
        if self.voices[v].paused {
            proof {
                lemma_skip_voice(m0, v as int, fi);
                assert(voice_after(m0, v as int, fi) == vm);
                assert(self.model().voices =~= mid_render_state(m0, fi, v as int + 1).voices);
                assert(self.model().pad_playhead =~= mid_render_state(
                    m0,
                    fi,
                    v as int + 1,
                ).pad_playhead);
                lemma_mid_render_wf(m0, fi, v as int + 1);
                assert(self.model() =~= mid_render_state(m0, fi, v as int + 1));
            }
            return;
        }
        // The voice renders.
        let id = self.voices[v].sample_id;
        proof {
            assert(id < crate::NUM_SAMPLES);
            assert(voice_renders(m0, v as int));
        }
        let target = self.effective_ratio(id);
        proof {
            assert(crate::mixer::spec_effective_ratio(self.model(), id as int)
                == crate::mixer::spec_effective_ratio(m0, id as int));
        }
        let rt = self.voices[v].smooth_tempo_ratio(target);
        let ghost m_mid = self.model();
        proof {
            assert(rt as int == crate::voice_slot::spec_smooth_tempo(
                vm.tempo_ratio,
                crate::mixer::spec_effective_ratio(m0, id as int),
            ));
        }
        let ls = self.pad_loop_start[id];
        let le = self.pad_loop_end[id];
        let s0 = if ls <= frames {
            ls
        } else {
            frames
        };
        let e0 = match le {
            Some(e) => if e <= frames {
                e
            } else {
                frames
            },
            None => frames,
        };
        let (s, e) = if e0 <= s0 {
            (0, frames)
        } else {
            (s0, e0)
        };
        let len = e - s;
        let ghost sw = spec_loop_window(
            m0.pad_loop_start[id as int],
            m0.pad_loop_end[id as int],
            buf_frames(vm.sample->0),
        );
        proof {
            assert(ls as int == m0.pad_loop_start[id as int]);
            assert((s as int, e as int) == sw);
            assert(len > 0);
        }
        let fp = self.voices[v].frame_pos;
        let pos0 = if s <= fp && fp < e {
            fp
        } else {
            s
        };
        let off0 = pos0 - s;
        proof {
            assert(fp as int == vm.frame_pos);
            crate::fixed::mul_bound(f as int, 0x1000_0000, rt as int, 2_000_000);
        }
        let num: u64 = (f as u64) * (rt as u64) + 500_000;
        let nq: u64 = num / 1_000_000;
        let n: usize = if nq < 1 {
            1
        } else if nq > 1024 {
            1024
        } else {
            nq as usize
        };
        proof {
            assert(n as int == spec_input_frames(fi, rt as int));
        }
        let sample = match &self.voices[v].sample {
            Some(b) => b.clone(),
            None => {
                proof {
                    assert(false);
                }
                crate::messages::SampleBuffer { channels: 1, samples: Vec::new() }
            },
        };
        proof {
            assert(buf_model(sample) =~= vm.sample->0);
        }
        let mut eql = self.voices[v].eq_left;
        let mut eqr = self.voices[v].eq_right;
        let ghost eql0 = eql;
        let ghost eqr0 = eqr;
        let eqc = self.pad_eq[id];
        let gain = self.pad_gain[id];
        let vol = self.volume;
        let vel = self.voices[v].volume;
        proof {
            assert(eqc == m0.pad_eq[id as int]);
            assert(gain as int == m0.pad_gain[id as int]);
            assert(vol as int == m0.volume);
            assert(vel as int == vm.volume);
            assert(eql0 == vm.eq_left && eqr0 == vm.eq_right);
            assert(eqc.wf() && 0 <= gain <= crate::PAD_GAIN_MAX && 0 <= vol <= crate::VOLUME_MAX
                && 0 <= vel <= crate::VOLUME_MAX);
            assert(s + len <= buf_frames(buf_model(sample)));
        }
        let (vblock, vpeak) = render_voice_block(
            &sample,
            channels,
            s,
            len,
            off0,
            n,
            f,
            eqc,
            &mut eql,
            &mut eqr,
            vel,
            vol,
            gain,
        );
        let ghost cv = voice_contrib(m0, v as int, fi);
        proof {
            assert(cv == spec_block(
                buf_model(sample),
                channels as int,
                s as int,
                len as int,
                off0 as int,
                n as int,
                fi,
                eqc,
                eql0,
                eqr0,
                vel as int,
                vol as int,
                gain as int,
            ));
            lemma_mix_bound(m0, v as int, fi);
            lemma_voice_contrib_bound(m0, v as int, fi);
        }
        let ghost mixv = spec_mix(m0, v as int, fi);
        let fc = f * channels;
        let mut i: usize = 0;
        while i < fc
            invariant
                i <= fc,
                out@.len() == old(out)@.len(),
                forall|k: int|
                    0 <= k < i as int ==> out@[k] as int == spec_mix(m0, v as int + 1, fi)[k],
                forall|k: int| i as int <= k < fc as int ==> out@[k] as int == mixv[k],
                forall|k: int| fc as int <= k < out@.len() ==> out@[k] == old(out)@[k],
            decreases fc - i,
        {
            let c = vblock[i];
            let cur = out[i];
            proof {
                assert(cur as int == mixv[i as int]);
                assert(-(32 * EQ_OUT_MAX) <= mixv[i as int] <= 32 * EQ_OUT_MAX) by {
                    assert(v as int * EQ_OUT_MAX <= 32 * EQ_OUT_MAX) by (nonlinear_arith)
                        requires
                            0 <= v as int <= 32,
                    ;
                }
                assert(spec_mix(m0, v as int + 1, fi)[i as int] == mixv[i as int] + cv[i as int]);
            }
            out[i] = cur + c;
            i = i + 1;
        }
        let curpeak = peaks[id];
        if vpeak > curpeak {
            peaks[id] = vpeak;
        }
        let newpos_w: u128 = ((off0 as u128) + (n as u128)) % (len as u128);
        proof {
            vstd::arithmetic::div_mod::lemma_mod_bound(off0 as int + n as int, len as int);
        }
        let newpos: usize = s + (newpos_w as usize);
        {
            let slot = &mut self.voices[v];
            slot.frame_pos = newpos;
            slot.eq_left = eql;
            slot.eq_right = eqr;
        }
        self.pad_playhead[id] = Some(newpos);
        proof {
            assert(newpos as int == voice_after(m0, v as int, fi).frame_pos);
            assert(voice_model(self.voices@[v as int]) =~= voice_after(m0, v as int, fi));
            assert forall|k: int| 0 <= k < m0.voices.len() implies self.model().voices[k]
                == mid_render_state(m0, fi, v as int + 1).voices[k] by {
                assert(self.model().voices[k] == voice_model(self.voices@[k]));
                assert(mid_render_state(m0, fi, v as int).voices[k] == voice_model(
                    old(self).voices@[k],
                ));
            }
            assert(self.model().voices =~= mid_render_state(m0, fi, v as int + 1).voices);
            assert forall|pid: int| 0 <= pid < crate::NUM_SAMPLES implies self.model().pad_playhead[pid]
                == mid_render_state(m0, fi, v as int + 1).pad_playhead[pid] by {
                assert(old(self).model().pad_playhead[pid] == mid_render_state(
                    m0,
                    fi,
                    v as int,
                ).pad_playhead[pid]);
                assert(old(self).model().pad_playhead[pid] == (match old(self).pad_playhead@[pid] {
                    Some(q) => Some(q as int),
                    None => None,
                }));
                assert(self.model().pad_playhead[pid] == (match self.pad_playhead@[pid] {
                    Some(q) => Some(q as int),
                    None => None,
                }));
                if pid == id as int {
                    assert(self.pad_playhead@[pid] == Some(newpos));
                    assert(spec_playhead(m0, pid, fi, v as int + 1) == Some(
                        voice_after(m0, v as int, fi).frame_pos,
                    ));
                } else {
                    assert(self.pad_playhead@[pid] == old(self).pad_playhead@[pid]);
                    assert(spec_playhead(m0, pid, fi, v as int + 1) == spec_playhead(
                        m0,
                        pid,
                        fi,
                        v as int,
                    ));
                }
            }
            assert(self.model().pad_playhead =~= mid_render_state(
                m0,
                fi,
                v as int + 1,
            ).pad_playhead);
            lemma_mid_render_wf(m0, fi, v as int + 1);
            assert(self.model() =~= mid_render_state(m0, fi, v as int + 1));
            assert(vpeak as int == seq_abs_max(cv));
            assert forall|pid: int| 0 <= pid < crate::NUM_SAMPLES implies peaks@[pid] as int
                == spec_pad_peak(m0, pid, fi, v as int + 1) by {
                lemma_pad_peak_bounds(m0, pid, fi, v as int);
                if pid != id as int {
                    assert(spec_pad_peak(m0, pid, fi, v as int + 1) == spec_pad_peak(
                        m0,
                        pid,
                        fi,
                        v as int,
                    ));
                }
            }
        }
    }
}

/// After a render, every rendering voice's cursor sits inside its resolved
/// loop window `[start, end)`.
pub proof fn lemma_cursor_stays_in_loop_window(m: MixerModel, v: int, f: int)
    requires
        crate::mixer::wf_model(m),
        0 <= v < crate::MAX_VOICES,
        0 <= f,
        voice_renders(m, v),
    ensures
        ({
            let vm = m.voices[v];
            let (s, e) = spec_loop_window(
                m.pad_loop_start[vm.sample_id],
                m.pad_loop_end[vm.sample_id],
                buf_frames(vm.sample->0),
            );
            s <= voice_after(m, v, f).frame_pos < e
        }),
{
    let vm = m.voices[v];
    let (s, e) = spec_loop_window(
        m.pad_loop_start[vm.sample_id],
        m.pad_loop_end[vm.sample_id],
        buf_frames(vm.sample->0),
    );
    let pos0 = if s <= vm.frame_pos && vm.frame_pos < e {
        vm.frame_pos
    } else {
        s
    };
    let rt = crate::voice_slot::spec_smooth_tempo(
        vm.tempo_ratio,
        crate::mixer::spec_effective_ratio(m, vm.sample_id),
    );
    let n = spec_input_frames(f, rt);
    vstd::arithmetic::div_mod::lemma_mod_bound(pos0 - s + n, e - s);
}

/// Rendering never pauses a voice either: together with
/// `crate::mixer::lemma_apply_keeps_voices_unpaused` and the fresh mixer's
/// all-stopped pool, no state reachable through the control API holds a
/// paused voice.
pub proof fn lemma_render_keeps_voices_unpaused(m: MixerModel, f: int)
    requires
        crate::mixer::no_voice_paused(m),
    ensures
        crate::mixer::no_voice_paused(spec_render_state(m, f)),
{
    let m2 = spec_render_state(m, f);
    assert forall|v: int| 0 <= v < m2.voices.len() implies !(#[trigger] m2.voices[v]).paused by {
        assert(!m.voices[v].paused);
    }
}

/// In a state without paused voices — every state the control API can
/// reach — every active voice with a non-empty sample ends the render
/// inside its resolved loop window: the second half of the bank/voice
/// invariants, free of the pause caveat.
pub proof fn lemma_active_cursor_stays_in_loop_window(m: MixerModel, v: int, f: int)
    requires
        crate::mixer::wf_model(m),
        crate::mixer::no_voice_paused(m),
        0 <= v < crate::MAX_VOICES,
        0 <= f,
        m.voices[v].active,
        m.voices[v].sample is Some,
        buf_frames(m.voices[v].sample->0) > 0,
    ensures
        ({
            let vm = m.voices[v];
            let (s, e) = spec_loop_window(
                m.pad_loop_start[vm.sample_id],
                m.pad_loop_end[vm.sample_id],
                buf_frames(vm.sample->0),
            );
            s <= voice_after(m, v, f).frame_pos < e
        }),
{
    assert(!m.voices[v].paused);
    lemma_cursor_stays_in_loop_window(m, v, f);
}

/// After `stop_all`, the next rendered block is exact silence: every output
/// sample and every pad peak is zero.
pub proof fn lemma_stop_all_renders_silence(m: MixerModel, f: int)
    requires
        crate::mixer::wf_model(m),
        0 <= f,
    ensures
        forall|i: int|
            0 <= i < f * m.channels ==> #[trigger] spec_mix(
                crate::mixer::spec_stop_all(m),
                crate::MAX_VOICES as int,
                f,
            )[i] == 0,
        forall|id: int|
            #[trigger] spec_pad_peak(
                crate::mixer::spec_stop_all(m),
                id,
                f,
                crate::MAX_VOICES as int,
            ) == 0,
{
    let ms = crate::mixer::spec_stop_all(m);
    assert(forall|v: int| 0 <= v < crate::MAX_VOICES ==> !#[trigger] voice_renders(ms, v));
    lemma_no_renderer_is_silent(ms, f, crate::MAX_VOICES as int);
}

/// Unloading a pad silences it at the next block: when every active voice
/// plays the unloaded pad, `unload` stops them all, the bank slot is
/// cleared, and the next rendered block is exact silence with zero peaks.
/// `lemma_load_play_first_render_audible` then shows the pad can be loaded
/// and played again audibly, with no lingering state.
pub proof fn lemma_unload_then_render_is_silence(m: MixerModel, id: int, f: int)
    requires
        crate::mixer::wf_model(m),
        0 <= id < crate::NUM_SAMPLES,
        0 <= f,
        forall|v: int|
            0 <= v < crate::MAX_VOICES ==> ((#[trigger] m.voices[v]).active ==> m.voices[v].sample_id
                == id),
    ensures
        crate::mixer::spec_unload_sample(m, id).bank[id] is None,
        forall|i: int|
            0 <= i < f * m.channels ==> #[trigger] spec_mix(
                crate::mixer::spec_unload_sample(m, id),
                crate::MAX_VOICES as int,
                f,
            )[i] == 0,
        forall|pid: int|
            #[trigger] spec_pad_peak(
                crate::mixer::spec_unload_sample(m, id),
                pid,
                f,
                crate::MAX_VOICES as int,
            ) == 0,
{
    let m2 = crate::mixer::spec_unload_sample(m, id);
    assert forall|v: int| 0 <= v < crate::MAX_VOICES implies !#[trigger] voice_renders(m2, v) by {
        assert(m2.voices[v] == crate::mixer::spec_stop_sample(m, id).voices[v]);
        if m.voices[v].active {
            assert(m2.voices[v] == crate::mixer::stopped_voice_model());
        }
    }
    lemma_no_renderer_is_silent(m2, f, crate::MAX_VOICES as int);
}

/// A block in which no voice renders is exact silence.
pub proof fn lemma_no_renderer_is_silent(m: MixerModel, f: int, nv: int)
    requires
        0 <= f,
        0 <= nv,
        0 <= m.channels,
        m.voices.len() == crate::MAX_VOICES,
        nv <= crate::MAX_VOICES,
        forall|v: int| 0 <= v < crate::MAX_VOICES ==> !#[trigger] voice_renders(m, v),
    ensures
        forall|i: int| 0 <= i < f * m.channels ==> #[trigger] spec_mix(m, nv, f)[i] == 0,
        forall|id: int| #[trigger] spec_pad_peak(m, id, f, nv) == 0,
        spec_mix(m, nv, f).len() == f * m.channels,
    decreases nv,
{
    if nv > 0 {
        lemma_no_renderer_is_silent(m, f, nv - 1);
        assert(spec_mix(m, nv, f) == seq_add(spec_mix(m, nv - 1, f), voice_contrib(m, nv - 1, f)));
        assert(spec_mix(m, nv, f).len() == f * m.channels);
        assert forall|i: int| 0 <= i < f * m.channels implies #[trigger] spec_mix(m, nv, f)[i]
            == 0 by {
            assert(voice_contrib(m, nv - 1, f)[i] == 0);
        }
        assert forall|id: int| #[trigger] spec_pad_peak(m, id, f, nv) == 0 by {
            assert(!voice_renders(m, nv - 1));
            assert(spec_pad_peak(m, id, f, nv - 1) == 0);
        }
    }
}

/// At unity band gains the whole EQ chain is the identity on inputs within
/// the filter's amplitude clamp.
pub proof fn lemma_unity_eq_outs(eq: Eq3Coeffs, st: Eq3State, ins: Seq<int>)
    requires
        eq.unity_gains(),
        forall|j: int| 0 <= j < ins.len() ==> -EQ_AMP_MAX <= #[trigger] ins[j] <= EQ_AMP_MAX,
    ensures
        eq_outs(eq, st, ins) == ins,
    decreases ins.len(),
{
    if ins.len() == 0 {
        assert(eq_outs(eq, st, ins) =~= ins);
    } else {
        let (y, st2) = spec_eq3_step(eq, st, ins[0]);
        crate::eq3::lemma_unity_eq3_is_identity(eq, st, ins[0]);
        lemma_unity_eq_outs(eq, st2, ins.drop_first());
        assert(eq_outs(eq, st, ins) =~= ins);
    }
}

/// When only voice `0` renders, the mix is exactly its contribution.
proof fn lemma_mix_is_single_contrib(m: MixerModel, f: int, nv: int, i: int)
    requires
        0 <= f,
        0 <= m.channels,
        1 <= nv <= crate::MAX_VOICES,
        m.voices.len() == crate::MAX_VOICES,
        0 <= i < f * m.channels,
        voice_contrib(m, 0, f).len() == f * m.channels,
        forall|v: int| 1 <= v < crate::MAX_VOICES ==> !#[trigger] voice_renders(m, v),
    ensures
        spec_mix(m, nv, f)[i] == voice_contrib(m, 0, f)[i],
        spec_mix(m, nv, f).len() == f * m.channels,
    decreases nv,
{
    assert(f * m.channels >= 0) by (nonlinear_arith)
        requires
            f >= 0,
            m.channels >= 0,
    ;
    if nv == 1 {
        assert(spec_mix(m, 0, f).len() == f * m.channels);
        assert(spec_mix(m, 0, f)[i] == 0);
    } else {
        lemma_mix_is_single_contrib(m, f, nv - 1, i);
        assert(!voice_renders(m, nv - 1));
        assert(voice_contrib(m, nv - 1, f)[i] == 0);
    }
}

/// A valid trigger on a quiet engine at the global defaults is audible in
/// the very first rendered block: with unity volume, speed, velocity, pad
/// gain and EQ gains, no BPM lock and the whole-sample loop window, the
/// block reproduces the buffer's opening frames exactly, so any nonzero
/// sample among them reaches the output unchanged.  This covers a fresh
/// engine after `load` then `play`, and equally a pad reloaded and
/// retriggered after an `unload`, since `unload` leaves no voice behind.
pub proof fn lemma_load_play_first_render_audible(
    m: MixerModel,
    id: int,
    b: BufModel,
    f: int,
    i0: int,
)
    requires
        crate::mixer::wf_model(m),
        0 <= id < crate::NUM_SAMPLES,
        b.channels == m.channels,
        m.volume == crate::AMP_UNIT,
        m.speed == crate::AMP_UNIT,
        !m.bpm_lock_enabled,
        m.pad_gain[id] == crate::AMP_UNIT,
        m.pad_eq[id].unity_gains(),
        m.pad_loop_start[id] == 0,
        m.pad_loop_end[id] is None,
        forall|v: int| 0 <= v < crate::MAX_VOICES ==> !(#[trigger] m.voices[v]).active,
        1 <= f <= 1024,
        0 <= i0 < f * m.channels,
        i0 < buf_frames(b) * b.channels,
        b.samples[i0] != 0,
    ensures
        ({
            let m2 = crate::mixer::spec_play_sample(
                crate::mixer::spec_load_sample(m, id, b),
                id,
                crate::AMP_UNIT as int,
            );
            spec_mix(m2, crate::MAX_VOICES as int, f)[i0] != 0
        }),
{
    let u = crate::AMP_UNIT as int;
    let m1 = crate::mixer::spec_load_sample(m, id, b);
    assert(m1.bank[id] == Some(b));
    assert(crate::mixer::first_inactive_from(m1.voices, 0) == Some(0int));
    let started = crate::mixer::started_voice_model(m1, id, u);
    let m2 = crate::mixer::spec_play_sample(m1, id, u);
    assert(m2.voices == m1.voices.update(0, started));
    let frames = buf_frames(b);
    let c = m.channels;
    assert(frames > 0 && 0 < c) by {
        assert(0 <= i0);
        assert(frames * c > 0);
        assert(frames > 0) by (nonlinear_arith)
            requires
                frames * c > 0,
                c > 0,
        ;
    }
    assert(started.frame_pos == 0);
    assert(started.tempo_ratio == u);
    assert(voice_renders(m2, 0));

    // The block's parameters: whole-sample window, zero offset, unity ratio,
    // one input frame per output frame.
    let (ws, we) = spec_loop_window(m2.pad_loop_start[id], m2.pad_loop_end[id], frames);
    assert(ws == 0 && we == frames);
    let rt = crate::voice_slot::spec_smooth_tempo(u, crate::mixer::spec_effective_ratio(m2, id));
    assert(crate::mixer::spec_effective_ratio(m2, id) == u);
    assert(rt == u);
    let n = spec_input_frames(f, rt);
    assert(n == f) by {
        vstd::arithmetic::div_mod::lemma_div_multiples_vanish_fancy(f, 500_000, 1_000_000);
        assert(1_000_000 * f == f * 1_000_000) by (nonlinear_arith);
    }

    // The input sample that feeds output index i0 is exactly b.samples[i0].
    let j0 = i0 / c;
    let c0 = i0 % c;
    vstd::arithmetic::div_mod::lemma_mod_bound(i0, c);
    vstd::arithmetic::div_mod::lemma_div_pos_is_pos(i0, c);
    assert(j0 < frames) by {
        assert(i0 < c * frames) by (nonlinear_arith)
            requires
                i0 < frames * c,
        ;
        vstd::arithmetic::div_mod::lemma_multiply_divide_lt(i0, c, frames);
    }
    let ins_c = Seq::new(f as nat, |j: int| spec_voice_input(b, 0, frames, 0, f, f, j, c0));
    assert(ins_c[j0] == crate::fixed::clip(b.samples[i0] as int, -u, u) && ins_c[j0] != 0) by {
        vstd::arithmetic::div_mod::lemma_div_by_multiple(j0, f);
        assert(j0 * f == f * j0) by (nonlinear_arith);
        assert((j0 * f) / f == j0);
        vstd::arithmetic::div_mod::lemma_mod_bound(j0, frames);
        vstd::arithmetic::div_mod::lemma_small_mod(j0 as nat, frames as nat);
        assert((0 + j0) % frames == j0);
        assert(spec_wrap_frame(0, frames, 0, j0) == j0);
        assert(i0 < c * f) by (nonlinear_arith)
            requires
                i0 < f * c,
        ;
        vstd::arithmetic::div_mod::lemma_multiply_divide_lt(i0, c, f);
        assert(0 <= j0 < f);
        vstd::arithmetic::div_mod::lemma_fundamental_div_mod(i0, c);
        assert(c * j0 == j0 * c) by (nonlinear_arith);
        assert(j0 * b.channels + c0 == i0);
        assert(ins_c[j0] == spec_voice_input(b, 0, frames, 0, f, f, j0, c0));
        assert(spec_voice_input(b, 0, frames, 0, f, f, j0, c0) == crate::fixed::clip(
            b.samples[j0 * b.channels + c0] as int,
            -u,
            u,
        ));
        assert(b.samples[i0] as int != 0);
    }

    // Unity EQ and unity gains hand that sample through unchanged.
    let eq = m2.pad_eq[id];
    assert(eq.unity_gains());
    let cv = voice_contrib(m2, 0, f);
    assert(cv[i0] == ins_c[j0]) by {
        let ins_l = Seq::new(f as nat, |j: int| spec_voice_input(b, 0, frames, 0, f, f, j, 0));
        let ins_r = Seq::new(f as nat, |j: int| spec_voice_input(b, 0, frames, 0, f, f, j, 1));
        assert(forall|j: int|
            0 <= j < f ==> -EQ_AMP_MAX <= #[trigger] ins_l[j] <= EQ_AMP_MAX);
        assert(forall|j: int|
            0 <= j < f ==> -EQ_AMP_MAX <= #[trigger] ins_r[j] <= EQ_AMP_MAX);
        lemma_unity_eq_outs(eq, started.eq_left, ins_l);
        lemma_unity_eq_outs(eq, started.eq_right, ins_r);
        let y = if c0 == 0 {
            ins_l[j0]
        } else {
            ins_r[j0]
        };
        assert(y == ins_c[j0]);
        crate::fixed::lemma_scale_unit(y);
        crate::fixed::lemma_scale_unit(crate::fixed::scale(y, u));
        crate::fixed::lemma_scale_unit(crate::fixed::scale(crate::fixed::scale(y, u), u));
        assert(cv[i0] == spec_gain3(y, u, u, u));
    }

    // No other voice renders, so the mix at i0 is the contribution alone.
    assert(forall|v: int| 1 <= v < crate::MAX_VOICES ==> !#[trigger] voice_renders(m2, v));
    lemma_voice_contrib_bound(m2, 0, f);
    lemma_mix_is_single_contrib(m2, f, crate::MAX_VOICES as int, i0);
}
} // verus!
