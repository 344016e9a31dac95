//! Lifecycle of one voice slot of the mixer's fixed voice pool.

use vstd::prelude::*;

use crate::eq3::Eq3State;
use crate::eq3::spec_zero_eq3_state;
use crate::fixed::clip;
use crate::fixed::clip_i64;
use crate::messages::SampleBuffer;

verus! {

/// Largest tempo-ratio change per rendered block, in `crate::AMP_UNIT`
/// fixed point (5% of unity).
pub const TEMPO_SMOOTH_STEP: i64 = 50_000;

/// One slot of the voice pool.  A slot is created once at mixer construction
/// and reused; `start` activates it and `stop` returns it to quiescence.
#[derive(Debug)]
pub struct VoiceSlot {
    /// Whether the slot currently renders audio.
    pub active: bool,
    /// Pad the playing sample was triggered from.
    pub sample_id: usize,
    /// The slot's own handle to the sample it plays.
    pub sample: Option<SampleBuffer>,
    /// Current playback position, in frames of the sample.
    pub frame_pos: usize,
    /// Trigger velocity, in `crate::AMP_UNIT` fixed point.
    pub volume: i64,
    /// Smoothed tempo ratio, in `crate::AMP_UNIT` fixed point.
    pub tempo_ratio_smoothed: i64,
    /// EQ state of the first (left or mono) channel.
    pub eq_left: Eq3State,
    /// EQ state of the second channel; unused on a mono engine.
    pub eq_right: Eq3State,
    /// Whether playback is paused without moving the cursor.
    pub paused: bool,
}

/// The quiescent voice slot.
pub open spec fn spec_stopped_slot() -> VoiceSlot {
    VoiceSlot {
        active: false,
        sample_id: 0,
        sample: None,
        frame_pos: 0,
        volume: 0,
        tempo_ratio_smoothed: crate::AMP_UNIT,
        eq_left: spec_zero_eq3_state(),
        eq_right: spec_zero_eq3_state(),
        paused: false,
    }
}

/// The tempo smoother: the target is clamped into the speed range, a
/// smoothed value that left the range snaps to the target, and otherwise
/// the smoothed value moves toward the target by at most
/// `TEMPO_SMOOTH_STEP`, clamped into the speed range.
pub open spec fn spec_smooth_tempo(prev: int, target: int) -> int {
    let t = clip(target, crate::SPEED_MIN as int, crate::SPEED_MAX as int);
    if prev < crate::SPEED_MIN || prev > crate::SPEED_MAX {
        t
    } else {
        let d = clip(t - prev, -TEMPO_SMOOTH_STEP as int, TEMPO_SMOOTH_STEP as int);
        clip(prev + d, crate::SPEED_MIN as int, crate::SPEED_MAX as int)
    }
}

impl VoiceSlot {
    /// A quiescent slot.  The voice pool has one slot per voice whatever the
    /// channel count; `channels` is the engine's channel count and mirrors
    /// the per-channel EQ state the slot carries.
    pub fn new(channels: usize) -> (r: Self)
        ensures
            r == spec_stopped_slot(),
    {
        VoiceSlot {
            active: false,
            sample_id: 0,
            sample: None,
            frame_pos: 0,
            volume: 0,
            tempo_ratio_smoothed: crate::AMP_UNIT,
            eq_left: Eq3State::new(),
            eq_right: Eq3State::new(),
            paused: false,
        }
    }

    /// Activates the slot for a sample, resetting the EQ state.
    pub fn start(
        &mut self,
        sample_id: usize,
        sample: SampleBuffer,
        initial_frame_pos: usize,
        volume: i64,
        initial_tempo_ratio: i64,
    )
        ensures
            *final(self) == (VoiceSlot {
                active: true,
                sample_id,
                sample: Some(sample),
                frame_pos: initial_frame_pos,
                volume,
                tempo_ratio_smoothed: initial_tempo_ratio,
                eq_left: spec_zero_eq3_state(),
                eq_right: spec_zero_eq3_state(),
                paused: false,
            }),
    {
        self.active = true;
        self.sample_id = sample_id;
        self.sample = Some(sample);
        self.frame_pos = initial_frame_pos;
        self.volume = volume;
        self.tempo_ratio_smoothed = initial_tempo_ratio;
        self.paused = false;
        self.eq_left.reset();
        self.eq_right.reset();
    }

    /// Returns the slot to quiescence, dropping its sample handle.
    pub fn stop(&mut self)
        ensures
            *final(self) == spec_stopped_slot(),
    {
        self.active = false;
        self.sample_id = 0;
        self.sample = None;
        self.frame_pos = 0;
        self.volume = 0;
        self.tempo_ratio_smoothed = crate::AMP_UNIT;
        self.paused = false;
        self.eq_left.reset();
        self.eq_right.reset();
    }

    /// Reuses the active slot without touching its EQ state or sample.
    pub fn restart(&mut self, initial_frame_pos: usize, volume: i64, initial_tempo_ratio: i64)
        ensures
            *final(self) == (VoiceSlot {
                frame_pos: initial_frame_pos,
                volume,
                tempo_ratio_smoothed: initial_tempo_ratio,
                paused: false,
                ..*old(self)
            }),
    {
        self.frame_pos = initial_frame_pos;
        self.volume = volume;
        self.tempo_ratio_smoothed = initial_tempo_ratio;
        self.paused = false;
    }

    /// Moves the smoothed tempo ratio toward `target` by at most
    /// `TEMPO_SMOOTH_STEP`, and returns the new smoothed ratio.
    pub fn smooth_tempo_ratio(&mut self, target: i64) -> (r: i64)
        ensures
            r == spec_smooth_tempo(old(self).tempo_ratio_smoothed as int, target as int),
            *final(self) == (VoiceSlot { tempo_ratio_smoothed: r, ..*old(self) }),
            crate::SPEED_MIN <= r <= crate::SPEED_MAX,
    {
        let t = clip_i64(target, crate::SPEED_MIN, crate::SPEED_MAX);
        if self.tempo_ratio_smoothed < crate::SPEED_MIN
            || self.tempo_ratio_smoothed > crate::SPEED_MAX {
            self.tempo_ratio_smoothed = t;
            return t;
        }
        let d = clip_i64(t - self.tempo_ratio_smoothed, -TEMPO_SMOOTH_STEP, TEMPO_SMOOTH_STEP);
        let r = clip_i64(self.tempo_ratio_smoothed + d, crate::SPEED_MIN, crate::SPEED_MAX);
        self.tempo_ratio_smoothed = r;
        r
    }

    /// Whether the slot actively plays the given pad.
    pub fn is_playing_sample(&self, sample_id: usize) -> (r: bool)
        ensures
            r == (self.active && self.sample_id == sample_id),
    {
        self.active && self.sample_id == sample_id
    }

    /// Pause playback: set the paused flag.  Does not change `frame_pos`.
    pub fn pause(&mut self)
        ensures
            *final(self) == (VoiceSlot { paused: true, ..*old(self) }),
    {
        self.paused = true;
    }

    /// Resume playback: clear the paused flag.
    pub fn resume(&mut self)
        ensures
            *final(self) == (VoiceSlot { paused: false, ..*old(self) }),
    {
        self.paused = false;
    }
}

} // verus!
