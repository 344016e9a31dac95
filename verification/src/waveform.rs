//! Waveform display data for a loaded sample.
//!
//! From the control side's shadow copy of a sample, a time range is turned
//! into drawable data: the raw per-sample values when the range holds fewer
//! than two samples per pixel column, and a per-column minimum/maximum
//! envelope otherwise.  Stereo samples are mixed down to mono by the
//! per-frame mean, and the x axis is reported in microseconds.

use vstd::prelude::*;

use crate::channels::frame_mean;
use crate::messages::SampleBuffer;

verus! {

/// The mono display value of frame `i`: the sample itself on a mono buffer,
/// the per-frame mean on a stereo one.
pub open spec fn spec_mono_at(samples: Seq<i32>, channels: int, i: int) -> int {
    if channels == 2 {
        frame_mean(samples[2 * i], samples[2 * i + 1]) as int
    } else {
        samples[i] as int
    }
}

/// The smallest mono value among the `k` frames starting at `lo`.
pub open spec fn spec_win_min(samples: Seq<i32>, channels: int, lo: int, k: nat) -> int
    decreases k,
{
    if k <= 1 {
        spec_mono_at(samples, channels, lo)
    } else {
        let prev = spec_win_min(samples, channels, lo, (k - 1) as nat);
        let last = spec_mono_at(samples, channels, lo + k - 1);
        if last < prev {
            last
        } else {
            prev
        }
    }
}

/// The largest mono value among the `k` frames starting at `lo`.
pub open spec fn spec_win_max(samples: Seq<i32>, channels: int, lo: int, k: nat) -> int
    decreases k,
{
    if k <= 1 {
        spec_mono_at(samples, channels, lo)
    } else {
        let prev = spec_win_max(samples, channels, lo, (k - 1) as nat);
        let last = spec_mono_at(samples, channels, lo + k - 1);
        if last > prev {
            last
        } else {
            prev
        }
    }
}

/// A frame index converted to microseconds at a sample rate.
pub open spec fn spec_frame_to_us(frame: int, rate: int) -> int
    recommends
        rate > 0,
{
    frame * 1_000_000 / rate
}

/// A microsecond position as a frame index, clamped into the sample.
pub open spec fn spec_clamped_frame(us: int, rate: int, frames: int) -> int {
    let f = crate::engine::spec_us_to_frames(us, rate);
    if f <= frames {
        f
    } else {
        frames
    }
}

/// One envelope column's promise: its min/max pair is exact over the
/// column's window of mono values and its x position is the window start.
pub open spec fn column_ok(
    w: WaveformData,
    samples: Seq<i32>,
    c: int,
    s: int,
    n: int,
    width_px: int,
    rate: int,
    col: int,
) -> bool {
    let lo = s + col * n / width_px;
    let hi = s + (col + 1) * n / width_px;
    &&& w.mins@[col] as int == spec_win_min(samples, c, lo, (hi - lo) as nat)
    &&& w.maxs@[col] as int == spec_win_max(samples, c, lo, (hi - lo) as nat)
    &&& w.xs_us@[col] as int == spec_frame_to_us(lo, rate)
}

/// The envelope mode's promise: one min/max pair and x position per
/// column, each exact over the column's window of mono values.
pub open spec fn envelope_ok(
    w: WaveformData,
    samples: Seq<i32>,
    c: int,
    s: int,
    n: int,
    width_px: int,
    rate: int,
) -> bool {
    &&& w.mins@.len() == width_px
    &&& w.maxs@.len() == width_px
    &&& w.xs_us@.len() == width_px
    &&& forall|col: int|
        0 <= col < width_px ==> #[trigger] column_ok(w, samples, c, s, n, width_px, rate, col)
}

/// Drawable waveform data for one pad and time range.
#[derive(Debug, Clone, PartialEq, Eq)]
pub struct WaveformData {
    /// Whether `values` holds raw per-frame values; otherwise `mins` and
    /// `maxs` hold the per-column envelope.
    pub raw: bool,
    /// Raw mode: the mono value of every frame in the range.
    pub values: Vec<i32>,
    /// Envelope mode: the smallest mono value of each column.
    pub mins: Vec<i32>,
    /// Envelope mode: the largest mono value of each column.
    pub maxs: Vec<i32>,
    /// The x position of each value or column, in microseconds.
    pub xs_us: Vec<u64>,
}

/// Computes display data for the frames of `sample` between `start_us` and
/// `end_us` (half open) at `width_px` columns.  Returns `None` when the
/// buffer's layout is unsupported, the width is zero, or the clamped range
/// is empty.
#[verifier::loop_isolation(false)]
#[verifier::rlimit(100)]
pub fn waveform_render_data(
    sample: &SampleBuffer,
    width_px: usize,
    start_us: u64,
    end_us: u64,
    rate: u32,
) -> (r: Option<WaveformData>)
    requires
        rate > 0,
        sample.channels == 1 || sample.channels == 2,
        sample.spec_frames() <= 0x1_0000_0000,
    ensures
        ({
            let frames = sample.spec_frames();
            let s = spec_clamped_frame(start_us as int, rate as int, frames);
            let e = spec_clamped_frame(end_us as int, rate as int, frames);
            r is None <==> (width_px == 0 || e <= s)
        }),
        ({
            let frames = sample.spec_frames();
            let s = spec_clamped_frame(start_us as int, rate as int, frames);
            let e = spec_clamped_frame(end_us as int, rate as int, frames);
            r matches Some(w) ==> (w.raw <==> e - s < 2 * width_px)
        }),
        ({
            let frames = sample.spec_frames();
            let c = sample.channels as int;
            let s = spec_clamped_frame(start_us as int, rate as int, frames);
            let e = spec_clamped_frame(end_us as int, rate as int, frames);
            let n = e - s;
            r matches Some(w) ==> (w.raw ==> {
                &&& w.values@.len() == n
                &&& w.xs_us@.len() == n
                &&& forall|i: int|
                    0 <= i < n ==> w.values@[i] as int == spec_mono_at(sample.samples@, c, s + i)
                &&& forall|i: int|
                    0 <= i < n ==> w.xs_us@[i] as int == spec_frame_to_us(s + i, rate as int)
            })
        }),
        ({
            let frames = sample.spec_frames();
            let c = sample.channels as int;
            let s = spec_clamped_frame(start_us as int, rate as int, frames);
            let e = spec_clamped_frame(end_us as int, rate as int, frames);
            let n = e - s;
            r matches Some(w) ==> (!w.raw ==> envelope_ok(
                w,
                sample.samples@,
                c,
                s,
                n,
                width_px as int,
                rate as int,
            ))
        }),
{
    let frames = sample.frames();
    if width_px == 0 {
        return None;
    }
    let s = us_to_frame_clamped(start_us, rate, frames);
    let e = us_to_frame_clamped(end_us, rate, frames);
    if e <= s {
        return None;
    }
    let n = e - s;
    if (n as u128) < 2 * (width_px as u128) {
        let (values, xs_us) = raw_mode(sample, s, n, rate);
        Some(WaveformData { raw: true, values, mins: Vec::new(), maxs: Vec::new(), xs_us })
    } else {
        let (mins, maxs, xs_us) = envelope_mode(sample, width_px, s, n, rate);
        let ghost gmins = mins@;
        let ghost gmaxs = maxs@;
        let ghost gxs = xs_us@;
        let w = WaveformData { raw: false, values: Vec::new(), mins, maxs, xs_us };
        proof {
            let c = sample.channels as int;
            let si: int = s as int;
            let ni: int = n as int;
            let wi: int = width_px as int;
            let ri: int = rate as int;
            assert forall|col: int| 0 <= col < wi implies #[trigger] column_ok(
                w,
                sample.samples@,
                c,
                si,
                ni,
                wi,
                ri,
                col,
            ) by {
                assert(w.mins@ == gmins && w.maxs@ == gmaxs && w.xs_us@ == gxs);
                assert(gmins[col] as int == spec_win_min(
                    sample.samples@,
                    c,
                    s as int + col * (n as int) / (width_px as int),
                    (s as int + (col + 1) * (n as int) / (width_px as int) - (s as int + col * (
                    n as int) / (width_px as int))) as nat,
                ));
            }
            assert(w.mins@.len() == width_px && w.maxs@.len() == width_px && w.xs_us@.len()
                == width_px);
            assert(envelope_ok(w, sample.samples@, c, si, ni, wi, ri));
        }
        Some(w)
    }
}

/// The raw display mode: the mono value of every frame in `[s, s + n)`.
#[verifier::loop_isolation(false)]
fn raw_mode(sample: &SampleBuffer, s: usize, n: usize, rate: u32) -> (r: (Vec<i32>, Vec<u64>))
    requires
        rate > 0,
        sample.channels == 1 || sample.channels == 2,
        sample.spec_frames() <= 0x1_0000_0000,
        s + n <= sample.spec_frames(),
        s + n <= usize::MAX,
    ensures
        r.0@.len() == n,
        r.1@.len() == n,
        forall|i: int|
            0 <= i < n ==> r.0@[i] as int == spec_mono_at(
                sample.samples@,
                sample.channels as int,
                s + i,
            ),
        forall|i: int| 0 <= i < n ==> r.1@[i] as int == spec_frame_to_us(s + i, rate as int),
{
    let ghost cg = sample.channels as int;
    let mut values: Vec<i32> = Vec::new();
    let mut xs_us: Vec<u64> = Vec::new();
    let mut i: usize = 0;
    while i < n
        invariant
            i <= n,
            values@.len() == i,
            xs_us@.len() == i,
            forall|k: int|
                0 <= k < i as int ==> values@[k] as int == spec_mono_at(sample.samples@, cg, s + k),
            forall|k: int|
                0 <= k < i as int ==> xs_us@[k] as int == spec_frame_to_us(s + k, rate as int),
        decreases n - i,
    {
        values.push(mono_at(sample, s + i));
        xs_us.push(frame_to_us(s + i, rate));
        i = i + 1;
    }
    (values, xs_us)
}

/// The envelope display mode: a min/max pair and x position per column.
#[verifier::loop_isolation(false)]
#[verifier::rlimit(100)]
fn envelope_mode(sample: &SampleBuffer, width_px: usize, s: usize, n: usize, rate: u32) -> (r: (
    Vec<i32>,
    Vec<i32>,
    Vec<u64>,
))
    requires
        rate > 0,
        sample.channels == 1 || sample.channels == 2,
        sample.spec_frames() <= 0x1_0000_0000,
        s + n <= sample.spec_frames(),
        s + n <= usize::MAX,
        width_px > 0,
        2 * width_px <= n,
    ensures
        r.0@.len() == width_px,
        r.1@.len() == width_px,
        r.2@.len() == width_px,
        forall|col: int|
            0 <= col < width_px ==> {
                let lo = s + col * n / (width_px as int);
                let hi = s + (col + 1) * n / (width_px as int);
                &&& #[trigger] r.0@[col] as int == spec_win_min(
                    sample.samples@,
                    sample.channels as int,
                    lo,
                    (hi - lo) as nat,
                )
                &&& r.1@[col] as int == spec_win_max(
                    sample.samples@,
                    sample.channels as int,
                    lo,
                    (hi - lo) as nat,
                )
                &&& r.2@[col] as int == spec_frame_to_us(lo, rate as int)
            },
{
    let ghost cg = sample.channels as int;
    let mut mins: Vec<i32> = Vec::new();
    let mut maxs: Vec<i32> = Vec::new();
    let mut xs_us: Vec<u64> = Vec::new();
    let mut col: usize = 0;
    while col < width_px
        invariant
            col <= width_px,
            mins@.len() == col,
            maxs@.len() == col,
            xs_us@.len() == col,
            forall|k: int|
                0 <= k < col as int ==> {
                    let lo = s + k * n / (width_px as int);
                    let hi = s + (k + 1) * n / (width_px as int);
                    &&& #[trigger] mins@[k] as int == spec_win_min(
                        sample.samples@,
                        cg,
                        lo,
                        (hi - lo) as nat,
                    )
                    &&& maxs@[k] as int == spec_win_max(sample.samples@, cg, lo, (hi - lo) as nat)
                    &&& xs_us@[k] as int == spec_frame_to_us(lo, rate as int)
                },
        decreases width_px - col,
    {
        proof {
            column_bounds(s as int, n as int, width_px as int, col as int);
            crate::fixed::mul_bound(col as int, 0x1_0000_0000_0000_0000, n as int, 0x1_0000_0000);
            crate::fixed::mul_bound(
                col as int + 1,
                0x1_0000_0000_0000_0000,
                n as int,
                0x1_0000_0000,
            );
        }
        proof {
            assert(0 <= (col as int) * (n as int) / (width_px as int) <= n as int);
            assert(0 <= (col as int + 1) * (n as int) / (width_px as int) <= n as int);
            assert(s as int + n as int <= usize::MAX);
        }
        let lo: usize = s + ((col as u128 * n as u128) / (width_px as u128)) as usize;
        let hi: usize = s + (((col as u128 + 1) * n as u128) / (width_px as u128)) as usize;
        let mut mn = mono_at(sample, lo);
        let mut mx = mn;
        let mut j: usize = lo + 1;
        while j < hi
            invariant
                lo < hi,
                lo < j <= hi,
                hi <= s + n,
                mn as int == spec_win_min(sample.samples@, cg, lo as int, (j - lo) as nat),
                mx as int == spec_win_max(sample.samples@, cg, lo as int, (j - lo) as nat),
            decreases hi - j,
        {
            let v = mono_at(sample, j);
            if v < mn {
                mn = v;
            }
            if v > mx {
                mx = v;
            }
            j = j + 1;
        }
        mins.push(mn);
        maxs.push(mx);
        xs_us.push(frame_to_us(lo, rate));
        col = col + 1;
    }
    (mins, maxs, xs_us)
}

/// A column's window is non-empty and stays inside the range.
proof fn column_bounds(s: int, n: int, width_px: int, col: int)
    requires
        0 < width_px,
        2 * width_px <= n,
        0 <= col < width_px,
        0 <= s,
    ensures
        col * n / width_px < (col + 1) * n / width_px,
        (col + 1) * n / width_px <= n,
        0 <= col * n / width_px,
{
    let w = width_px;
    assert((col + 1) * n == col * n + n) by (nonlinear_arith);
    vstd::arithmetic::div_mod::lemma_div_pos_is_pos(col * n, w);
    assert(col * n >= 0) by (nonlinear_arith)
        requires
            col >= 0,
            n >= 0,
    ;
    // Lower bound of the next column: adding n to the numerator adds at
    // least n / w >= 2 to the quotient.
    vstd::arithmetic::div_mod::lemma_hoist_over_denominator(col * n, n / w, w as nat);
    vstd::arithmetic::div_mod::lemma_fundamental_div_mod(n, w);
    vstd::arithmetic::div_mod::lemma_mod_bound(n, w);
    assert(col * n + (n / w) * w <= col * n + n) by (nonlinear_arith)
        requires
            (n / w) * w <= n,
    ;
    vstd::arithmetic::div_mod::lemma_div_is_ordered(col * n + (n / w) * w, col * n + n, w);
    assert(2 <= n / w) by {
        vstd::arithmetic::div_mod::lemma_div_is_ordered(2 * w, n, w);
        vstd::arithmetic::div_mod::lemma_div_by_multiple(2, w);
        assert(2 * w == w * 2) by (nonlinear_arith);
    }
    // Upper bound: (col + 1) * n <= w * n, so the quotient is at most n.
    assert((col + 1) * n <= w * n) by (nonlinear_arith)
        requires
            col + 1 <= w,
            n >= 0,
    ;
    vstd::arithmetic::div_mod::lemma_div_is_ordered((col + 1) * n, w * n, w);
    assert(w * n == n * w) by (nonlinear_arith);
    vstd::arithmetic::div_mod::lemma_div_by_multiple(n, w);
}

/// The mono display value of one frame.
fn mono_at(sample: &SampleBuffer, i: usize) -> (r: i32)
    requires
        sample.channels == 1 || sample.channels == 2,
        i < sample.spec_frames(),
    ensures
        r as int == spec_mono_at(sample.samples@, sample.channels as int, i as int),
{
    let total = sample.samples.len();
    proof {
        vstd::arithmetic::div_mod::lemma_fundamental_div_mod(
            sample.samples@.len() as int,
            sample.channels as int,
        );
        vstd::arithmetic::div_mod::lemma_mod_bound(
            sample.samples@.len() as int,
            sample.channels as int,
        );
        assert((sample.channels as int) * (i as int) < (sample.channels as int)
            * sample.spec_frames()) by (nonlinear_arith)
            requires
                0 <= i as int,
                (i as int) < sample.spec_frames(),
                sample.channels as int > 0,
        ;
    }
    if sample.channels == 2 {
        let a = sample.samples[2 * i];
        let b = sample.samples[2 * i + 1];
        crate::channels::frame_mean_i32(a, b)
    } else {
        sample.samples[i]
    }
}

/// A frame index converted to microseconds at the sample rate.
fn frame_to_us(frame: usize, rate: u32) -> (r: u64)
    requires
        rate > 0,
        frame <= 0x1_0000_0000,
    ensures
        r as int == spec_frame_to_us(frame as int, rate as int),
{
    proof {
        crate::fixed::mul_bound(frame as int, 0x1_0000_0000, 1_000_000, 1_000_000);
        vstd::arithmetic::div_mod::lemma_div_pos_is_pos(frame as int * 1_000_000, rate as int);
        vstd::arithmetic::div_mod::lemma_div_is_ordered(
            frame as int * 1_000_000,
            0x1_0000_0000int * 1_000_000,
            rate as int,
        );
    }
    (((frame as u128) * 1_000_000) / (rate as u128)) as u64
}

/// A microsecond position converted to a frame index, clamped into the
/// sample.
fn us_to_frame_clamped(us: u64, rate: u32, frames: usize) -> (r: usize)
    requires
        rate > 0,
    ensures
        r as int == spec_clamped_frame(us as int, rate as int, frames as int),
{
    proof {
        crate::fixed::mul_bound(us as int, 0x1_0000_0000_0000_0000, rate as int, 0x1_0000_0000);
        vstd::arithmetic::div_mod::lemma_div_pos_is_pos(us as int * rate as int, 1_000_000);
    }
    let wide: u128 = (us as u128) * (rate as u128) / 1_000_000;
    if wide > frames as u128 {
        frames
    } else {
        wide as usize
    }
}

} // verus!
