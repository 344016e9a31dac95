//! Staged progress reporting for the sample-loading pipeline.
//!
//! The load of one sample is reported as a single percentage over the whole
//! pipeline.  Each stage owns a fixed slice of that range (in thousandths,
//! `0 ..= 1000`); when no resampling is required the resampling slice
//! collapses to a point.  Emissions are rate limited to one per
//! `MIN_EMIT_INTERVAL_MS` unless forced.

use vstd::prelude::*;

verus! {

/// Minimum interval between two unforced progress emissions, in milliseconds.
pub const MIN_EMIT_INTERVAL_MS: u64 = 100;

/// One whole load, in thousandths.
pub const PROGRESS_FULL: u32 = 1000;

/// The stages of one sample load, in pipeline order.
#[derive(Debug, Clone, Copy, PartialEq, Eq, Structural)]
pub enum LoadProgressStage {
    Decoding,
    Resampling,
    ChannelMapping,
    Analyzing,
    Publishing,
}

/// The slice of the unified progress range owned by a stage, in thousandths.
pub open spec fn spec_stage_range(stage: LoadProgressStage, resampling_required: bool) -> (u32, u32) {
    if !resampling_required {
        match stage {
            LoadProgressStage::Decoding => (0u32, 100u32),
            LoadProgressStage::Resampling => (100u32, 100u32),
            LoadProgressStage::ChannelMapping => (100u32, 150u32),
            LoadProgressStage::Analyzing => (150u32, 950u32),
            LoadProgressStage::Publishing => (950u32, 1000u32),
        }
    } else {
        match stage {
            LoadProgressStage::Decoding => (0u32, 100u32),
            LoadProgressStage::Resampling => (100u32, 200u32),
            LoadProgressStage::ChannelMapping => (200u32, 250u32),
            LoadProgressStage::Analyzing => (250u32, 950u32),
            LoadProgressStage::Publishing => (950u32, 1000u32),
        }
    }
}

/// The unified percentage (in thousandths) for a point `local` (in
/// thousandths, already clamped) within a stage.
pub open spec fn spec_stage_percent(
    stage: LoadProgressStage,
    resampling_required: bool,
    local: u32,
) -> int {
    let (start, end) = spec_stage_range(stage, resampling_required);
    start + (end - start) * local / 1000
}

impl LoadProgressStage {
    /// Human-readable label of the stage.
    pub fn stage_label(self) -> (r: &'static str)
        ensures
            self is Decoding ==> r@ == "Decoding…"@,
            self is Resampling ==> r@ == "Resampling…"@,
            self is ChannelMapping ==> r@ == "Mapping channels…"@,
            self is Analyzing ==> r@ == "Analyzing…"@,
            self is Publishing ==> r@ == "Publishing…"@,
    {
        match self {
            Self::Decoding => "Decoding…",
            Self::Resampling => "Resampling…",
            Self::ChannelMapping => "Mapping channels…",
            Self::Analyzing => "Analyzing…",
            Self::Publishing => "Publishing…",
        }
    }

    /// The slice of the unified progress range owned by this stage.
    pub fn range(self, resampling_required: bool) -> (r: (u32, u32))
        ensures
            r == spec_stage_range(self, resampling_required),
    {
        if !resampling_required {
            match self {
                Self::Decoding => (0, 100),
                Self::Resampling => (100, 100),
                Self::ChannelMapping => (100, 150),
                Self::Analyzing => (150, 950),
                Self::Publishing => (950, 1000),
            }
        } else {
            match self {
                Self::Decoding => (0, 100),
                Self::Resampling => (100, 200),
                Self::ChannelMapping => (200, 250),
                Self::Analyzing => (250, 950),
                Self::Publishing => (950, 1000),
            }
        }
    }
}

/// One rate-limited progress emission, ready to be forwarded to listeners.
#[derive(Debug, Clone, Copy, PartialEq, Eq, Structural)]
pub struct ProgressUpdate {
    /// Pad the load is for.
    pub id: usize,
    /// Unified progress over the whole load, in thousandths.
    pub percent_per_mille: u32,
    /// Stage the load is currently in.
    pub stage: LoadProgressStage,
}

/// Turns per-stage progress into rate-limited unified progress updates.
pub struct ProgressReporter {
    /// Pad the load is for.
    pub id: usize,
    /// Time of the last emission, in milliseconds; `None` before the first.
    pub last_emit_ms: Option<u64>,
    /// Whether this load needs resampling, fixed by the first emission that
    /// reports it.
    pub resampling_required: Option<bool>,
}

impl ProgressReporter {
    /// Whether an emission at `now_ms` is suppressed by the rate limit.
    pub open spec fn spec_suppressed(&self, force: bool, now_ms: u64) -> bool {
        !force && match self.last_emit_ms {
            Some(t) => now_ms < t + MIN_EMIT_INTERVAL_MS,
            None => false,
        }
    }

    /// A fresh reporter for pad `id`; its first emission always passes the
    /// rate limit.
    pub fn new(id: usize) -> (r: Self)
        ensures
            r.id == id,
            r.last_emit_ms is None,
            r.resampling_required is None,
    {
        ProgressReporter { id, last_emit_ms: None, resampling_required: None }
    }

    /// Reports progress `local_per_mille` (in thousandths of the current
    /// stage, clamped to one) for `stage` at time `now_ms`.
    ///
    /// Returns the update to forward, or `None` when the rate limit
    /// suppresses it.  The first emission fixes whether resampling is
    /// required; later emissions keep that answer.
    pub fn emit(
        &mut self,
        stage: LoadProgressStage,
        local_per_mille: u32,
        resampling_required: bool,
        force: bool,
        now_ms: u64,
    ) -> (r: Option<ProgressUpdate>)
        ensures
            old(self).spec_suppressed(force, now_ms) ==> r is None && *final(self) == *old(self),
            !old(self).spec_suppressed(force, now_ms) ==> {
                let eff = match old(self).resampling_required {
                    Some(b) => b,
                    None => resampling_required,
                };
                let local = if local_per_mille <= PROGRESS_FULL {
                    local_per_mille
                } else {
                    PROGRESS_FULL
                };
                &&& final(self).id == old(self).id
                &&& final(self).last_emit_ms == Some(now_ms)
                &&& final(self).resampling_required == Some(eff)
                &&& r == Some(
                    ProgressUpdate {
                        id: old(self).id,
                        percent_per_mille: spec_stage_percent(stage, eff, local) as u32,
                        stage,
                    },
                )
                &&& spec_stage_percent(stage, eff, local) <= PROGRESS_FULL
            },
    {
        let suppressed = if force {
            false
        } else {
            match self.last_emit_ms {
                Some(t) => (now_ms as u128) < t as u128 + MIN_EMIT_INTERVAL_MS as u128,
                None => false,
            }
        };
        if suppressed {
            return None;
        }
        let local = if local_per_mille <= PROGRESS_FULL {
            local_per_mille
        } else {
            PROGRESS_FULL
        };
        let eff = match self.resampling_required {
            Some(b) => b,
            None => resampling_required,
        };
        self.resampling_required = Some(eff);
        self.last_emit_ms = Some(now_ms);
        let (start, end) = stage.range(eff);
        proof {
            assert(start <= end && end <= 1000);
            let es = (end - start) as int;
            let l = local as int;
            vstd::arithmetic::mul::lemma_mul_upper_bound(es, 1000, l, 1000);
            vstd::arithmetic::mul::lemma_mul_inequality(l, 1000, es);
            vstd::arithmetic::div_mod::lemma_div_is_ordered(l * es, 1000 * es, 1000);
            vstd::arithmetic::div_mod::lemma_div_by_multiple(es, 1000);
            assert(es * l == l * es && 1000 * es == es * 1000) by (nonlinear_arith);
            assert(es * l / 1000 <= es);
        }
        let percent = start + (end - start) * local / 1000;
        Some(ProgressUpdate { id: self.id, percent_per_mille: percent, stage })
    }
}

} // verus!
