//! Message definitions for communication between the control side and the
//! real-time audio thread, and the shared sample buffer they exchange.

use vstd::prelude::*;

verus! {

/// An immutable block of interleaved fixed-point audio.
///
/// `samples` holds interleaved frames of `channels` samples each; one
/// amplitude unit is `crate::AMP_UNIT`.
#[derive(Debug)]
pub struct SampleBuffer {
    /// Number of interleaved channels (1 for mono, 2 for stereo).
    pub channels: usize,
    /// Interleaved fixed-point samples.
    pub samples: Vec<i32>,
}

impl SampleBuffer {
    /// Number of whole frames the buffer holds.
    pub open spec fn spec_frames(&self) -> int {
        self.samples@.len() as int / self.channels as int
    }

    /// Number of whole frames the buffer holds.
    pub fn frames(&self) -> (r: usize)
        requires
            self.channels > 0,
        ensures
            r == self.spec_frames(),
    {
        self.samples.len() / self.channels
    }
}

impl Clone for SampleBuffer {
    fn clone(&self) -> (r: Self)
        ensures
            r.channels == self.channels,
            r.samples@ == self.samples@,
    {
        let samples = self.samples.clone();
        proof {
            assert(samples@ =~= self.samples@);
        }
        SampleBuffer { channels: self.channels, samples }
    }
}

/// Message emitted from the audio thread toward the control side.
#[derive(Debug, Clone, PartialEq, Eq)]
pub enum AudioMessage {
    /// Response to a `Ping` message.
    Pong,
    /// Indicates the audio playback is stopped.
    Stopped,
    /// Best-effort absolute peak of a pad during the last rendered block.
    PadPeak { id: usize, peak: i64 },
    /// Best-effort playhead frame of a pad after the last rendered block.
    PadPlayhead { id: usize, frame: usize },
}

/// Message emitted from the control side toward the audio thread.
///
/// All messages are applied by the mixer at the next block boundary; invalid
/// values are silently dropped there.
#[derive(Debug, Clone)]
pub enum ControlMessage {
    /// Used for testing message passing; answered with `Pong`.
    Ping,
    /// Set the global volume level (`0 ..= VOLUME_MAX`).
    SetVolume(i64),
    /// Set the global speed multiplier (`SPEED_MIN ..= SPEED_MAX`).
    SetSpeed(i64),
    /// Publish a loaded sample into an audio-thread slot.
    LoadSample { id: usize, sample: SampleBuffer },
    /// Play a loaded sample at the given velocity (`0 ..= VOLUME_MAX`).
    PlaySample { id: usize, velocity: i64 },
    /// Stop all active voices for a sample.
    StopSample { id: usize },
    /// Stop all currently active voices.
    StopAll,
    /// Stop all voices for the sample and clear its bank slot.
    UnloadSample { id: usize },
    /// Set the master BPM, in thousandths of a beat per minute (`> 0`).
    SetMasterBpm(i64),
    /// Enable or disable BPM lock; disabling clears the master BPM.
    SetBpmLock(bool),
    /// Enable or disable key lock.
    SetKeyLock(bool),
    /// Set or clear the per-pad BPM, in thousandths of a beat per minute.
    SetPadBpm { id: usize, bpm: Option<i64> },
    /// Set the per-pad gain (`0 ..= PAD_GAIN_MAX`).
    SetPadGain { id: usize, gain: i64 },
    /// Set the per-pad 3-band EQ gains, in thousandths of a decibel.
    SetPadEq { id: usize, low_db: i64, mid_db: i64, high_db: i64 },
    /// Set the per-pad loop region as a half-open frame range.
    SetPadLoopRegion { id: usize, start_frame: usize, end_frame: Option<usize> },
}

} // verus!
