//! Fixed-point 3-band EQ.
//!
//! The band split runs the input through two cascaded low-pass biquads (the
//! low band) and two cascaded high-pass biquads (the high band); the mid band
//! is defined as the input minus the low and high bands, which guarantees
//! perfect reconstruction at unity band gains whatever the crossover
//! coefficients are.  Biquad coefficients are fixed point with `COEFF_ONE`
//! standing for one; band gains are fixed point with `crate::AMP_UNIT`
//! standing for one (0 dB).  All intermediate values are clamped so that the
//! filter state stays bounded for every coefficient choice.

use vstd::prelude::*;

use crate::fixed::clip;
use crate::fixed::clip_i64;
use crate::fixed::lemma_scale_unit;
use crate::fixed::mul_bound;
use crate::fixed::scale;
use crate::fixed::scale_i64;
use crate::fixed::tdiv;
use crate::fixed::tdiv_i64;

verus! {

/// One biquad coefficient unit (2^20).
pub const COEFF_ONE: i64 = 1_048_576;

/// Largest accepted biquad coefficient magnitude (2^24, sixteen units).
pub const COEFF_MAX: i64 = 16_777_216;

/// Amplitude clamp applied inside the filter (2^32).
pub const EQ_AMP_MAX: i64 = 4_294_967_296;

/// Clamp applied to the filter state words (2^52 = EQ_AMP_MAX * COEFF_ONE).
pub const EQ_STATE_MAX: i64 = 4_503_599_627_370_496;

/// Largest band gain (just above +12 dB).
pub const GAIN_MAX: i64 = 4_000_000;

/// Largest amplitude the 3-band EQ can emit for a clamped input
/// (20 * EQ_AMP_MAX).
pub const EQ_OUT_MAX: i64 = 85_899_345_920;

/// Coefficients of one biquad section, in `COEFF_ONE` fixed point,
/// normalized so that the leading feedback coefficient is one.
#[derive(Debug, Clone, Copy, PartialEq, Eq, Structural)]
pub struct BiquadCoeffs {
    pub b0: i64,
    pub b1: i64,
    pub b2: i64,
    pub a1: i64,
    pub a2: i64,
}

impl BiquadCoeffs {
    /// All coefficients within the accepted magnitude.
    pub open spec fn wf(&self) -> bool {
        &&& -COEFF_MAX <= self.b0 <= COEFF_MAX
        &&& -COEFF_MAX <= self.b1 <= COEFF_MAX
        &&& -COEFF_MAX <= self.b2 <= COEFF_MAX
        &&& -COEFF_MAX <= self.a1 <= COEFF_MAX
        &&& -COEFF_MAX <= self.a2 <= COEFF_MAX
    }

    /// The pass-through section: one unit forward, no feedback.
    pub fn identity() -> (r: Self)
        ensures
            r == spec_identity_biquad(),
            r.wf(),
    {
        BiquadCoeffs { b0: COEFF_ONE, b1: 0, b2: 0, a1: 0, a2: 0 }
    }
}

/// The pass-through biquad section.
pub open spec fn spec_identity_biquad() -> BiquadCoeffs {
    BiquadCoeffs { b0: COEFF_ONE, b1: 0, b2: 0, a1: 0, a2: 0 }
}

/// The crossover whose four sections are all pass-throughs.
pub open spec fn spec_identity_crossover() -> CrossoverCoeffs {
    CrossoverCoeffs {
        lp1: spec_identity_biquad(),
        lp2: spec_identity_biquad(),
        hp1: spec_identity_biquad(),
        hp2: spec_identity_biquad(),
    }
}

/// Persistent state of one biquad section (transposed direct form II),
/// scaled by `COEFF_ONE` relative to the amplitudes.
#[derive(Debug, Clone, Copy, PartialEq, Eq, Structural, Default)]
pub struct BiquadState {
    pub z1: i64,
    pub z2: i64,
}

impl BiquadState {
    /// Both state words within the accepted magnitude.
    pub open spec fn wf(&self) -> bool {
        &&& -EQ_STATE_MAX <= self.z1 <= EQ_STATE_MAX
        &&& -EQ_STATE_MAX <= self.z2 <= EQ_STATE_MAX
    }
}

/// The quiescent biquad state.
pub open spec fn spec_zero_biquad_state() -> BiquadState {
    BiquadState { z1: 0, z2: 0 }
}

/// One step of a biquad section in transposed direct form II, with the
/// output and the state words clamped.
pub open spec fn spec_biquad_step(c: BiquadCoeffs, st: BiquadState, x: int) -> (int, BiquadState) {
    let y = clip(tdiv(c.b0 * x + st.z1, COEFF_ONE as int), -EQ_AMP_MAX as int, EQ_AMP_MAX as int);
    let z1 = clip(c.b1 * x - c.a1 * y + st.z2, -EQ_STATE_MAX as int, EQ_STATE_MAX as int);
    let z2 = clip(c.b2 * x - c.a2 * y, -EQ_STATE_MAX as int, EQ_STATE_MAX as int);
    (y, BiquadState { z1: z1 as i64, z2: z2 as i64 })
}

/// Runs one sample through a biquad section, advancing its state.
pub fn biquad_process(c: BiquadCoeffs, state: &mut BiquadState, x: i64) -> (r: i64)
    requires
        c.wf(),
        old(state).wf(),
        -EQ_AMP_MAX <= x <= EQ_AMP_MAX,
    ensures
        (r as int, *final(state)) == spec_biquad_step(c, *old(state), x as int),
        final(state).wf(),
        -EQ_AMP_MAX <= r <= EQ_AMP_MAX,
{
    proof {
        mul_bound(c.b0 as int, COEFF_MAX as int, x as int, EQ_AMP_MAX as int);
    }
    let t: i64 = c.b0 * x + state.z1;
    let y = clip_i64(tdiv_i64(t, COEFF_ONE), -EQ_AMP_MAX, EQ_AMP_MAX);
    proof {
        mul_bound(c.b1 as int, COEFF_MAX as int, x as int, EQ_AMP_MAX as int);
        mul_bound(c.b2 as int, COEFF_MAX as int, x as int, EQ_AMP_MAX as int);
        mul_bound(c.a1 as int, COEFF_MAX as int, y as int, EQ_AMP_MAX as int);
        mul_bound(c.a2 as int, COEFF_MAX as int, y as int, EQ_AMP_MAX as int);
    }
    let z1: i64 = clip_i64(c.b1 * x - c.a1 * y + state.z2, -EQ_STATE_MAX, EQ_STATE_MAX);
    let z2: i64 = clip_i64(c.b2 * x - c.a2 * y, -EQ_STATE_MAX, EQ_STATE_MAX);
    state.z1 = z1;
    state.z2 = z2;
    y
}

/// The two crossover cascades of the band split: two low-passes in series
/// for the low band and two high-passes in series for the high band.
#[derive(Debug, Clone, Copy, PartialEq, Eq, Structural)]
pub struct CrossoverCoeffs {
    pub lp1: BiquadCoeffs,
    pub lp2: BiquadCoeffs,
    pub hp1: BiquadCoeffs,
    pub hp2: BiquadCoeffs,
}

impl CrossoverCoeffs {
    pub open spec fn wf(&self) -> bool {
        self.lp1.wf() && self.lp2.wf() && self.hp1.wf() && self.hp2.wf()
    }

    /// A crossover of pass-through sections.
    pub fn identity() -> (r: Self)
        ensures
            r == spec_identity_crossover(),
            r.wf(),
    {
        CrossoverCoeffs {
            lp1: BiquadCoeffs::identity(),
            lp2: BiquadCoeffs::identity(),
            hp1: BiquadCoeffs::identity(),
            hp2: BiquadCoeffs::identity(),
        }
    }
}

/// Complete coefficient set of the 3-band EQ: the crossover cascades and one
/// fixed-point linear gain per band.
#[derive(Debug, Clone, Copy, PartialEq, Eq, Structural)]
pub struct Eq3Coeffs {
    pub crossover: CrossoverCoeffs,
    pub gain_low: i64,
    pub gain_mid: i64,
    pub gain_high: i64,
}

impl Eq3Coeffs {
    pub open spec fn wf(&self) -> bool {
        &&& self.crossover.wf()
        &&& 0 <= self.gain_low <= GAIN_MAX
        &&& 0 <= self.gain_mid <= GAIN_MAX
        &&& 0 <= self.gain_high <= GAIN_MAX
    }

    /// Whether all three bands stand at unity gain (0 dB).
    pub open spec fn unity_gains(&self) -> bool {
        &&& self.gain_low == crate::AMP_UNIT
        &&& self.gain_mid == crate::AMP_UNIT
        &&& self.gain_high == crate::AMP_UNIT
    }

    /// The neutral EQ: pass-through crossover sections and unity gains.
    pub fn identity() -> (r: Self)
        ensures
            r.wf(),
            r.unity_gains(),
            r.crossover == spec_identity_crossover(),
    {
        Eq3Coeffs {
            crossover: CrossoverCoeffs::identity(),
            gain_low: crate::AMP_UNIT,
            gain_mid: crate::AMP_UNIT,
            gain_high: crate::AMP_UNIT,
        }
    }

    /// Runs one sample through the 3-band EQ, advancing the state.
    pub fn process(&self, state: &mut Eq3State, x: i64) -> (r: i64)
        requires
            self.wf(),
            old(state).wf(),
        ensures
            (r as int, *final(state)) == spec_eq3_step(*self, *old(state), x as int),
            final(state).wf(),
            -EQ_OUT_MAX <= r <= EQ_OUT_MAX,
    {
        let xc = clip_i64(x, -EQ_AMP_MAX, EQ_AMP_MAX);
        let mut low1 = state.low1;
        let mut low2 = state.low2;
        let mut high1 = state.high1;
        let mut high2 = state.high2;
        let l1 = biquad_process(self.crossover.lp1, &mut low1, xc);
        let low = biquad_process(self.crossover.lp2, &mut low2, l1);
        let h1 = biquad_process(self.crossover.hp1, &mut high1, xc);
        let high = biquad_process(self.crossover.hp2, &mut high2, h1);
        let mid: i64 = xc - low - high;
        let yl = scale_i64(low, self.gain_low);
        let ym = scale_i64(mid, self.gain_mid);
        let yh = scale_i64(high, self.gain_high);
        proof {
            crate::fixed::lemma_scale_bound(low as int, self.gain_low as int, EQ_AMP_MAX as int, GAIN_MAX as int);
            crate::fixed::lemma_scale_bound(mid as int, self.gain_mid as int, 3 * EQ_AMP_MAX as int, GAIN_MAX as int);
            crate::fixed::lemma_scale_bound(high as int, self.gain_high as int, EQ_AMP_MAX as int, GAIN_MAX as int);
        }
        let y: i64 = yl + ym + yh;
        state.low1 = low1;
        state.low2 = low2;
        state.high1 = high1;
        state.high2 = high2;
        y
    }
}

/// Persistent state of the 3-band EQ for one channel.
#[derive(Debug, Clone, Copy, PartialEq, Eq, Structural, Default)]
pub struct Eq3State {
    pub low1: BiquadState,
    pub low2: BiquadState,
    pub high1: BiquadState,
    pub high2: BiquadState,
}

impl Eq3State {
    pub open spec fn wf(&self) -> bool {
        self.low1.wf() && self.low2.wf() && self.high1.wf() && self.high2.wf()
    }

    /// Returns the state to quiescence.
    pub fn reset(&mut self)
        ensures
            *final(self) == spec_zero_eq3_state(),
    {
        *self = Eq3State {
            low1: BiquadState { z1: 0, z2: 0 },
            low2: BiquadState { z1: 0, z2: 0 },
            high1: BiquadState { z1: 0, z2: 0 },
            high2: BiquadState { z1: 0, z2: 0 },
        };
    }

    /// A quiescent state.
    pub fn new() -> (r: Self)
        ensures
            r == spec_zero_eq3_state(),
    {
        Eq3State {
            low1: BiquadState { z1: 0, z2: 0 },
            low2: BiquadState { z1: 0, z2: 0 },
            high1: BiquadState { z1: 0, z2: 0 },
            high2: BiquadState { z1: 0, z2: 0 },
        }
    }
}

/// The quiescent 3-band EQ state.
pub open spec fn spec_zero_eq3_state() -> Eq3State {
    Eq3State {
        low1: spec_zero_biquad_state(),
        low2: spec_zero_biquad_state(),
        high1: spec_zero_biquad_state(),
        high2: spec_zero_biquad_state(),
    }
}

/// One step of the 3-band EQ: clamp the input, split it into a low band (two
/// cascaded low-passes), a high band (two cascaded high-passes) and the mid
/// band `input - low - high`, then sum the gain-weighted bands.
pub open spec fn spec_eq3_step(c: Eq3Coeffs, st: Eq3State, x: int) -> (int, Eq3State) {
    let xc = clip(x, -EQ_AMP_MAX as int, EQ_AMP_MAX as int);
    let (l1, s_low1) = spec_biquad_step(c.crossover.lp1, st.low1, xc);
    let (low, s_low2) = spec_biquad_step(c.crossover.lp2, st.low2, l1);
    let (h1, s_high1) = spec_biquad_step(c.crossover.hp1, st.high1, xc);
    let (high, s_high2) = spec_biquad_step(c.crossover.hp2, st.high2, h1);
    let mid = xc - low - high;
    let y = scale(low, c.gain_low as int) + scale(mid, c.gain_mid as int) + scale(
        high,
        c.gain_high as int,
    );
    (y, Eq3State { low1: s_low1, low2: s_low2, high1: s_high1, high2: s_high2 })
}

/// Linear gain (in `crate::AMP_UNIT` fixed point) at a whole decibel value;
/// entry `k` is `10^((k - 12) / 20)` scaled by one unit.
pub open spec fn spec_db_gain_anchor(k: int) -> int {
    if k <= 0 {
        251_189
    } else if k == 1 {
        281_838
    } else if k == 2 {
        316_228
    } else if k == 3 {
        354_813
    } else if k == 4 {
        398_107
    } else if k == 5 {
        446_684
    } else if k == 6 {
        501_187
    } else if k == 7 {
        562_341
    } else if k == 8 {
        630_957
    } else if k == 9 {
        707_946
    } else if k == 10 {
        794_328
    } else if k == 11 {
        891_251
    } else if k == 12 {
        1_000_000
    } else if k == 13 {
        1_122_018
    } else if k == 14 {
        1_258_925
    } else if k == 15 {
        1_412_538
    } else if k == 16 {
        1_584_893
    } else if k == 17 {
        1_778_279
    } else if k == 18 {
        1_995_262
    } else if k == 19 {
        2_238_721
    } else if k == 20 {
        2_511_886
    } else if k == 21 {
        2_818_383
    } else if k == 22 {
        3_162_278
    } else if k == 23 {
        3_548_134
    } else {
        3_981_072
    }
}

/// The fixed-point linear gain of a band gain given in thousandths of a
/// decibel: `10^(dB/20)` anchored at whole decibels and interpolated
/// linearly between them, with anything at or below -12 dB clamped to a
/// true mute and anything above +12 dB clamped to the +12 dB gain.
pub open spec fn spec_db_to_gain(db: int) -> int {
    if db <= crate::PAD_EQ_DB_MIN {
        0
    } else if db >= crate::PAD_EQ_DB_MAX {
        spec_db_gain_anchor(24)
    } else {
        let t = db + 12_000;
        let k = t / 1000;
        let f = t % 1000;
        spec_db_gain_anchor(k) + (spec_db_gain_anchor(k + 1) - spec_db_gain_anchor(k)) * f / 1000
    }
}

/// Gain anchor at a whole decibel index (`0` is -12 dB, `24` is +12 dB).
fn gain_anchor(k: u64) -> (r: i64)
    requires
        k <= 24,
    ensures
        r == spec_db_gain_anchor(k as int),
        251_189 <= r <= 3_981_072,
{
    if k == 0 {
        251_189
    } else if k == 1 {
        281_838
    } else if k == 2 {
        316_228
    } else if k == 3 {
        354_813
    } else if k == 4 {
        398_107
    } else if k == 5 {
        446_684
    } else if k == 6 {
        501_187
    } else if k == 7 {
        562_341
    } else if k == 8 {
        630_957
    } else if k == 9 {
        707_946
    } else if k == 10 {
        794_328
    } else if k == 11 {
        891_251
    } else if k == 12 {
        1_000_000
    } else if k == 13 {
        1_122_018
    } else if k == 14 {
        1_258_925
    } else if k == 15 {
        1_412_538
    } else if k == 16 {
        1_584_893
    } else if k == 17 {
        1_778_279
    } else if k == 18 {
        1_995_262
    } else if k == 19 {
        2_238_721
    } else if k == 20 {
        2_511_886
    } else if k == 21 {
        2_818_383
    } else if k == 22 {
        3_162_278
    } else if k == 23 {
        3_548_134
    } else {
        3_981_072
    }
}

/// The fixed-point linear gain of a band gain given in thousandths of a
/// decibel.
pub fn db_to_gain(db: i64) -> (r: i64)
    ensures
        r == spec_db_to_gain(db as int),
        0 <= r <= GAIN_MAX,
{
    if db <= crate::PAD_EQ_DB_MIN {
        return 0;
    }
    if db >= crate::PAD_EQ_DB_MAX {
        return 3_981_072;
    }
    let t: u64 = (db + 12_000) as u64;
    let k: u64 = t / 1000;
    let f: u64 = t % 1000;
    let g0 = gain_anchor(k);
    let g1 = gain_anchor(k + 1);
    proof {
        assert(spec_db_gain_anchor(k as int) <= spec_db_gain_anchor(k as int + 1));
        mul_bound((g1 - g0) as int, 4_000_000, f as int, 1000);
    }
    let num: u64 = ((g1 - g0) as u64) * f;
    let interp: i64 = (num / 1000) as i64;
    proof {
        let d = (g1 - g0) as int;
        vstd::arithmetic::mul::lemma_mul_inequality(f as int, 1000, d);
        assert(d * (f as int) == (f as int) * d && 1000 * d == d * 1000) by (nonlinear_arith);
        vstd::arithmetic::div_mod::lemma_div_is_ordered((f as int) * d, 1000 * d, 1000);
        vstd::arithmetic::div_mod::lemma_div_by_multiple(d, 1000);
        vstd::arithmetic::div_mod::lemma_div_pos_is_pos(d * (f as int), 1000);
    }
    g0 + interp
}

/// Assembles the EQ coefficient set from designed crossover sections and the
/// three band gains in thousandths of a decibel.
pub fn coeffs_for_eq3(crossover: CrossoverCoeffs, low_db: i64, mid_db: i64, high_db: i64) -> (r:
    Eq3Coeffs)
    ensures
        r.crossover == crossover,
        r.gain_low == spec_db_to_gain(low_db as int),
        r.gain_mid == spec_db_to_gain(mid_db as int),
        r.gain_high == spec_db_to_gain(high_db as int),
        crossover.wf() ==> r.wf(),
{
    Eq3Coeffs {
        crossover,
        gain_low: db_to_gain(low_db),
        gain_mid: db_to_gain(mid_db),
        gain_high: db_to_gain(high_db),
    }
}

/// A pass-through biquad section from the quiescent state: the output is
/// the clamped input and the state stays quiescent.
pub proof fn lemma_identity_biquad_from_zero(x: int)
    ensures
        spec_biquad_step(spec_identity_biquad(), spec_zero_biquad_state(), x) == (
            crate::fixed::clip(x, -EQ_AMP_MAX as int, EQ_AMP_MAX as int),
            spec_zero_biquad_state(),
        ),
{
    crate::fixed::lemma_tdiv_cancel(x, COEFF_ONE as int);
    assert(COEFF_ONE as int * x == x * (COEFF_ONE as int)) by (nonlinear_arith);
}

/// The neutral EQ (pass-through crossovers, unity gains) from the quiescent
/// state is the identity on every clamped input, and it leaves the state
/// quiescent: a freshly started voice hears its pad untouched until a
/// `SetPadEq` changes the pad.
pub proof fn lemma_identity_eq3_from_zero(eq: Eq3Coeffs, x: int)
    requires
        eq.crossover == spec_identity_crossover(),
        eq.unity_gains(),
        -EQ_AMP_MAX <= x <= EQ_AMP_MAX,
    ensures
        spec_eq3_step(eq, spec_zero_eq3_state(), x) == (x, spec_zero_eq3_state()),
{
    lemma_identity_biquad_from_zero(x);
    let st = spec_zero_eq3_state();
    let xc = crate::fixed::clip(x, -EQ_AMP_MAX as int, EQ_AMP_MAX as int);
    assert(xc == x);
    let (l1, s_low1) = spec_biquad_step(eq.crossover.lp1, st.low1, xc);
    assert(l1 == x && s_low1 == spec_zero_biquad_state());
    let (low, s_low2) = spec_biquad_step(eq.crossover.lp2, st.low2, l1);
    assert(low == x && s_low2 == spec_zero_biquad_state());
    let (h1, s_high1) = spec_biquad_step(eq.crossover.hp1, st.high1, xc);
    let (high, s_high2) = spec_biquad_step(eq.crossover.hp2, st.high2, h1);
    assert(high == x);
    crate::fixed::lemma_scale_unit(low);
    crate::fixed::lemma_scale_unit(xc - low - high);
    crate::fixed::lemma_scale_unit(high);
    assert(spec_eq3_step(eq, st, x).1 =~= st);
}

/// At unity band gains the 3-band EQ is the identity, sample for sample and
/// for every crossover coefficient choice and every filter state: the mid
/// band is defined as the input minus the low and high bands, so the
/// gain-weighted band sum restores the clamped input exactly.
pub proof fn lemma_unity_eq3_is_identity(c: Eq3Coeffs, st: Eq3State, x: int)
    requires
        c.unity_gains(),
        -EQ_AMP_MAX <= x <= EQ_AMP_MAX,
    ensures
        spec_eq3_step(c, st, x).0 == x,
{
    let xc = clip(x, -EQ_AMP_MAX as int, EQ_AMP_MAX as int);
    assert(xc == x);
    let (l1, s_low1) = spec_biquad_step(c.crossover.lp1, st.low1, xc);
    let (low, s_low2) = spec_biquad_step(c.crossover.lp2, st.low2, l1);
    let (h1, s_high1) = spec_biquad_step(c.crossover.hp1, st.high1, xc);
    let (high, s_high2) = spec_biquad_step(c.crossover.hp2, st.high2, h1);
    let mid = xc - low - high;
    lemma_scale_unit(low);
    lemma_scale_unit(mid);
    lemma_scale_unit(high);
}

} // verus!
