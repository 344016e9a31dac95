//! A minimal playing-sample record: one sample handle with its playback
//! position and velocity.

use vstd::prelude::*;

use crate::messages::SampleBuffer;

verus! {

/// A single playing instance of a sample.
#[derive(Debug)]
pub struct Voice {
    /// ID of the sample being played.
    pub sample_id: usize,
    /// The sample buffer being played.
    pub sample: SampleBuffer,
    /// Current playback position in frames.
    pub frame_pos: usize,
    /// Volume multiplier for this voice, in `crate::AMP_UNIT` fixed point.
    pub volume: i64,
}

impl Voice {
    /// A new voice for playing `sample`, with the playback position at the
    /// start of the buffer.
    pub fn new(sample_id: usize, sample: SampleBuffer, volume: i64) -> (r: Self)
        ensures
            r.sample_id == sample_id,
            r.sample == sample,
            r.frame_pos == 0,
            r.volume == volume,
    {
        Voice { sample_id, sample, frame_pos: 0, volume }
    }
}

} // verus!
