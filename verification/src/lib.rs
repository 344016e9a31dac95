//! Real-time audio core of a pad-grid performance sampler.
//!
//! The engine mixes up to `MAX_VOICES` playing voices drawn from a bank of
//! `NUM_SAMPLES` pre-decoded sample buffers while a control thread mutates
//! engine parameters through a lock-free message queue.  All audio values are
//! carried in fixed-point: one amplitude or gain unit is `AMP_UNIT` (so
//! `500_000` stands for half of full scale), tempo ratios and speeds use the
//! same scale, BPM values are in thousandths of a beat per minute, and EQ
//! band gains are in thousandths of a decibel.

use vstd::prelude::*;

pub mod channels;
pub mod eq3;
pub mod engine;
pub mod errors;
pub mod cache;
pub mod fixed;
pub mod loader;
pub mod messages;
pub mod mixer;
pub mod progress;
pub mod render;
pub mod transport;
pub mod voice;
pub mod waveform;
pub mod voice_slot;

verus! {

/// Number of sample banks available.
pub const NUM_BANKS: usize = 6;

/// Size of the pad grid (`GRID_SIZE` x `GRID_SIZE`).
pub const GRID_SIZE: usize = 6;

/// Total number of pads in one bank.
pub const NUM_PADS: usize = GRID_SIZE * GRID_SIZE;

/// Total number of sample slots (pads x banks).
pub const NUM_SAMPLES: usize = NUM_PADS * NUM_BANKS;

/// Maximum number of voices that can be active simultaneously.
pub const MAX_VOICES: usize = 32;

/// One amplitude, gain or ratio unit in fixed point (full scale / unity).
pub const AMP_UNIT: i64 = 1_000_000;

/// Minimum playback speed multiplier (50%), in `AMP_UNIT` fixed point.
pub const SPEED_MIN: i64 = 500_000;

/// Maximum playback speed multiplier (200%), in `AMP_UNIT` fixed point.
pub const SPEED_MAX: i64 = 2_000_000;

/// Minimum volume level (silence).
pub const VOLUME_MIN: i64 = 0;

/// Maximum volume level (100%), in `AMP_UNIT` fixed point.
pub const VOLUME_MAX: i64 = 1_000_000;

/// Minimum per-pad gain.
pub const PAD_GAIN_MIN: i64 = 0;

/// Maximum per-pad gain, in `AMP_UNIT` fixed point.
pub const PAD_GAIN_MAX: i64 = 1_000_000;

/// Minimum per-band EQ gain in thousandths of a decibel.
pub const PAD_EQ_DB_MIN: i64 = -12_000;

/// Maximum per-band EQ gain in thousandths of a decibel.
pub const PAD_EQ_DB_MAX: i64 = 12_000;

} // verus!
