//! Pure planning arithmetic of the sample-loading pipeline.
//!
//! The decode, resample and file I/O run in the unverified host around the
//! library; the quantities that drive them — how many output frames a
//! resample must produce and how far a decode has progressed — are computed
//! here.

use vstd::prelude::*;

verus! {

/// The number of output frames a resample from `from_rate` to `to_rate`
/// must produce for `input_frames` input frames:
/// `ceil(input_frames * to_rate / from_rate)`.
pub open spec fn spec_resample_output_len(input_frames: int, from_rate: int, to_rate: int) -> int
    recommends
        from_rate > 0,
{
    (input_frames * to_rate + from_rate - 1) / from_rate
}

/// The number of output frames a resample must produce; the resampler's
/// tail is flushed until this length is reached.
pub fn resample_output_len(input_frames: usize, from_rate: u32, to_rate: u32) -> (r: usize)
    requires
        from_rate > 0,
        input_frames <= 0x1000_0000_0000,
        spec_resample_output_len(input_frames as int, from_rate as int, to_rate as int)
            <= usize::MAX,
    ensures
        r == spec_resample_output_len(input_frames as int, from_rate as int, to_rate as int),
{
    proof {
        crate::fixed::mul_bound(input_frames as int, 0x1000_0000_0000, to_rate as int, 0x1_0000_0000);
    }
    let num: u128 = (input_frames as u128) * (to_rate as u128) + (from_rate as u128) - 1;
    (num / (from_rate as u128)) as usize
}

/// Decode progress in thousandths: `decoded / total`, clamped to one whole,
/// and zero when the track advertises no duration.
pub open spec fn spec_decode_progress(decoded: int, total: int) -> int {
    if total <= 0 {
        0
    } else if decoded >= total {
        1000
    } else {
        decoded * 1000 / total
    }
}

/// Decode progress in thousandths for the progress reporter.
pub fn decode_progress_per_mille(decoded: u64, total: u64) -> (r: u32)
    ensures
        r == spec_decode_progress(decoded as int, total as int),
        r <= 1000,
{
    if total == 0 {
        return 0;
    }
    if decoded >= total {
        return 1000;
    }
    proof {
        crate::fixed::mul_bound(decoded as int, 0x1_0000_0000_0000_0000, 1000, 1000);
        assert((decoded as int) * 1000 < (total as int) * 1000) by (nonlinear_arith)
            requires
                0 <= decoded as int,
                (decoded as int) < (total as int),
        ;
        vstd::arithmetic::div_mod::lemma_multiply_divide_lt(
            (decoded as int) * 1000,
            total as int,
            1000,
        );
        vstd::arithmetic::div_mod::lemma_div_pos_is_pos((decoded as int) * 1000, total as int);
    }
    let num: u128 = (decoded as u128) * 1000;
    ((num / (total as u128)) as u32)
}

} // verus!
