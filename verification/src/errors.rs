//! Error types of the audio engine.

use vstd::prelude::*;

verus! {

/// Errors that can occur while loading audio files.
///
/// The variants that wrap a `String` carry the message of a failure that
/// happened outside the engine (file system, decoder, resampler); they are
/// produced by the unverified host code around the library.
#[derive(Debug, Clone, PartialEq, Eq)]
pub enum SampleLoadError {
    /// Failed to open or read the audio file.
    Io(String),
    /// Failed to decode the audio file.
    Decode(String),
    /// Failed to create the resampler.
    ResamplerConstruction(String),
    /// Failed to resample audio.
    Resample(String),
    /// Audio file has no default track.
    NoDefaultTrack,
    /// Audio file is missing sample rate information.
    MissingSampleRate,
    /// Audio file is missing channel information.
    MissingChannels,
    /// Unsupported channel mapping configuration.
    UnsupportedChannels { file_channels: usize, output_channels: usize },
}

/// Errors returned synchronously by the engine facade.
#[derive(Debug, Clone, Copy, PartialEq, Eq)]
pub enum EngineError {
    /// A pad id was outside `0..NUM_SAMPLES`.
    InvalidId,
    /// A parameter value was outside its documented range.
    InvalidValue,
    /// A facade operation was called before the stream was started.
    NotInitialized,
    /// The engine stream is already running.
    AlreadyRunning,
    /// The control ring is saturated; the caller may retry.
    QueueFull,
    /// A load is already in flight for this pad.
    AlreadyLoading,
    /// A background task of the same kind already runs for this pad.
    AlreadyRunningTask,
    /// No off-thread copy of the pad's sample exists to analyze.
    NoShadowCopy,
}

} // verus!
