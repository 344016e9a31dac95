//! The engine facade: the thread-safe control-side API around the two ring
//! buffers, and the audio-side drain that applies queued messages.
//!
//! The facade validates every call against the documented ranges, then
//! enqueues one control message; a full ring is reported as `QueueFull` and
//! nothing else changes.  The audio side drains the control ring at each
//! block boundary and applies every message exactly once, in FIFO order.

use vstd::prelude::*;

use crate::errors::EngineError;
use crate::messages::AudioMessage;
use crate::messages::ControlMessage;
use crate::messages::SampleBuffer;
use crate::mixer::RtMixer;
use crate::mixer::spec_apply_all;
use crate::mixer::lemma_apply_all_snoc;
use crate::transport::audio_popped;
use crate::transport::audio_pushed;
use crate::transport::control_popped;
use crate::transport::control_pushed;
use crate::transport::pop_audio;
use crate::transport::pop_control;
use crate::transport::push_audio;
use crate::transport::push_control;

verus! {

/// Capacity of each of the two rings between the control side and the audio
/// thread.
pub const RING_CAPACITY: usize = 1024;

/// The control-side endpoints of a running stream.
pub struct AudioEngine {
    /// Producer half of the control ring; `None` before the stream starts.
    pub producer: Option<rtrb::Producer<ControlMessage>>,
    /// Consumer half of the audio ring; `None` before the stream starts.
    pub consumer: Option<rtrb::Consumer<AudioMessage>>,
    /// Channel count of the running stream.
    pub output_channels: Option<usize>,
    /// Sample rate of the running stream, in Hz.
    pub output_sample_rate: Option<u32>,
    /// Whether the stream is running.
    pub is_playing: bool,
}

impl AudioEngine {
    /// Whether the engine holds live ring endpoints.
    pub open spec fn initialized(&self) -> bool {
        &&& self.producer is Some
        &&& self.consumer is Some
    }

    /// Whether control messages can be sent.
    pub open spec fn can_send(&self) -> bool {
        self.producer is Some
    }

    /// Whether audio messages can be received.
    pub open spec fn can_receive(&self) -> bool {
        self.consumer is Some
    }

    /// The control messages this facade has pushed so far.
    pub open spec fn sent(&self) -> Seq<ControlMessage>
        recommends
            self.producer is Some,
    {
        control_pushed(self.producer->0)
    }

    /// The audio messages this facade has received so far.
    pub open spec fn received(&self) -> Seq<AudioMessage>
        recommends
            self.consumer is Some,
    {
        audio_popped(self.consumer->0)
    }

    /// Everything except the ring endpoints, unchanged.
    pub open spec fn same_config(&self, other: &Self) -> bool {
        &&& self.output_channels == other.output_channels
        &&& self.output_sample_rate == other.output_sample_rate
        &&& self.is_playing == other.is_playing
    }

    /// A new engine with no running stream.
    pub fn new() -> (r: Self)
        ensures
            !r.initialized(),
            r.producer is None,
            r.consumer is None,
            r.output_channels is None,
            r.output_sample_rate is None,
            !r.is_playing,
    {
        AudioEngine {
            producer: None,
            consumer: None,
            output_channels: None,
            output_sample_rate: None,
            is_playing: false,
        }
    }

    /// Adopts the endpoints of a freshly started stream.  Fails when a
    /// stream is already running.
    pub fn attach_stream(
        &mut self,
        producer: rtrb::Producer<ControlMessage>,
        consumer: rtrb::Consumer<AudioMessage>,
        output_channels: usize,
        output_sample_rate: u32,
    ) -> (r: Result<(), EngineError>)
        ensures
            old(self).is_playing ==> r == Err::<(), EngineError>(EngineError::AlreadyRunning)
                && *final(self) == *old(self),
            !old(self).is_playing ==> {
                &&& r is Ok
                &&& final(self).producer == Some(producer)
                &&& final(self).consumer == Some(consumer)
                &&& final(self).output_channels == Some(output_channels)
                &&& final(self).output_sample_rate == Some(output_sample_rate)
                &&& final(self).is_playing
            },
    {
        if self.is_playing {
            return Err(EngineError::AlreadyRunning);
        }
        self.producer = Some(producer);
        self.consumer = Some(consumer);
        self.output_channels = Some(output_channels);
        self.output_sample_rate = Some(output_sample_rate);
        self.is_playing = true;
        Ok(())
    }

    /// Drops the stream endpoints and forgets the stream configuration.
    pub fn shut_down(&mut self)
        ensures
            !final(self).initialized(),
            final(self).producer is None,
            final(self).consumer is None,
            final(self).output_channels is None,
            final(self).output_sample_rate is None,
            !final(self).is_playing,
    {
        self.producer = None;
        self.consumer = None;
        self.output_channels = None;
        self.output_sample_rate = None;
        self.is_playing = false;
    }

    /// Pushes one already validated control message.
    fn send(&mut self, msg: ControlMessage) -> (r: Result<(), EngineError>)
        ensures
            !old(self).can_send() ==> r == Err::<(), EngineError>(EngineError::NotInitialized)
                && *final(self) == *old(self),
            old(self).can_send() ==> {
                &&& final(self).can_send()
                &&& final(self).same_config(old(self))
                &&& final(self).consumer == old(self).consumer
                &&& (r is Ok ==> final(self).sent() == old(self).sent().push(msg))
                &&& (r is Err ==> r == Err::<(), EngineError>(EngineError::QueueFull)
                    && final(self).sent() == old(self).sent())
            },
    {
        match &mut self.producer {
            Some(p) => match push_control(p, msg) {
                Ok(()) => Ok(()),
                Err(_) => Err(EngineError::QueueFull),
            },
            None => Err(EngineError::NotInitialized),
        }
    }

    /// Publishes a decoded sample into bank slot `id`.
    pub fn load_sample(&mut self, id: usize, sample: SampleBuffer) -> (r: Result<(), EngineError>)
        ensures
            id >= crate::NUM_SAMPLES ==> r == Err::<(), EngineError>(EngineError::InvalidId)
                && *final(self) == *old(self),
            id < crate::NUM_SAMPLES && !old(self).can_send() ==> r == Err::<(),
                EngineError,
            >(EngineError::NotInitialized) && *final(self) == *old(self),
            id < crate::NUM_SAMPLES && old(self).can_send() ==> {
                &&& final(self).can_send()
                &&& final(self).consumer == old(self).consumer
                &&& final(self).same_config(old(self))
                &&& (r is Ok ==> final(self).sent() == old(self).sent().push(
                    ControlMessage::LoadSample { id, sample },
                ))
                &&& (r is Err ==> r == Err::<(), EngineError>(EngineError::QueueFull)
                    && final(self).sent() == old(self).sent())
            },
    {
        if id >= crate::NUM_SAMPLES {
            return Err(EngineError::InvalidId);
        }
        if self.producer.is_none() {
            return Err(EngineError::NotInitialized);
        }
        self.send(ControlMessage::LoadSample { id, sample })
    }

    /// Triggers playback of pad `id` at a velocity in `0 ..= VOLUME_MAX`.
    pub fn play_sample(&mut self, id: usize, velocity: i64) -> (r: Result<(), EngineError>)
        ensures
            id >= crate::NUM_SAMPLES ==> r == Err::<(), EngineError>(EngineError::InvalidId)
                && *final(self) == *old(self),
            id < crate::NUM_SAMPLES && !(0 <= velocity <= crate::VOLUME_MAX) ==> r == Err::<(),
                EngineError,
            >(EngineError::InvalidValue) && *final(self) == *old(self),
            id < crate::NUM_SAMPLES && 0 <= velocity <= crate::VOLUME_MAX && !old(self).can_send() ==> r == Err::<(), EngineError>(EngineError::NotInitialized) && *final(self) == *old(self),
            id < crate::NUM_SAMPLES && 0 <= velocity <= crate::VOLUME_MAX && old(self).can_send() ==> {
                &&& final(self).can_send()
                &&& final(self).consumer == old(self).consumer
                &&& final(self).same_config(old(self))
                &&& (r is Ok ==> final(self).sent() == old(self).sent().push(
                    ControlMessage::PlaySample { id, velocity },
                ))
                &&& (r is Err ==> r == Err::<(), EngineError>(EngineError::QueueFull)
                    && final(self).sent() == old(self).sent())
            },
    {
        if id >= crate::NUM_SAMPLES {
            return Err(EngineError::InvalidId);
        }
        if velocity < 0 || velocity > crate::VOLUME_MAX {
            return Err(EngineError::InvalidValue);
        }
        if self.producer.is_none() {
            return Err(EngineError::NotInitialized);
        }
        self.send(ControlMessage::PlaySample { id, velocity })
    }

    /// Stops all voices of pad `id`.
    pub fn stop_sample(&mut self, id: usize) -> (r: Result<(), EngineError>)
        ensures
            id >= crate::NUM_SAMPLES ==> r == Err::<(), EngineError>(EngineError::InvalidId)
                && *final(self) == *old(self),
            id < crate::NUM_SAMPLES && !old(self).can_send() ==> r == Err::<(),
                EngineError,
            >(EngineError::NotInitialized) && *final(self) == *old(self),
            id < crate::NUM_SAMPLES && old(self).can_send() ==> {
                &&& final(self).can_send()
                &&& final(self).consumer == old(self).consumer
                &&& final(self).same_config(old(self))
                &&& (r is Ok ==> final(self).sent() == old(self).sent().push(
                    ControlMessage::StopSample { id },
                ))
                &&& (r is Err ==> r == Err::<(), EngineError>(EngineError::QueueFull)
                    && final(self).sent() == old(self).sent())
            },
    {
        if id >= crate::NUM_SAMPLES {
            return Err(EngineError::InvalidId);
        }
        if self.producer.is_none() {
            return Err(EngineError::NotInitialized);
        }
        self.send(ControlMessage::StopSample { id })
    }

    /// Stops every active voice.
    pub fn stop_all(&mut self) -> (r: Result<(), EngineError>)
        ensures
            !old(self).can_send() ==> r == Err::<(), EngineError>(EngineError::NotInitialized)
                && *final(self) == *old(self),
            old(self).can_send() ==> {
                &&& final(self).can_send()
                &&& final(self).consumer == old(self).consumer
                &&& final(self).same_config(old(self))
                &&& (r is Ok ==> final(self).sent() == old(self).sent().push(
                    ControlMessage::StopAll,
                ))
                &&& (r is Err ==> r == Err::<(), EngineError>(EngineError::QueueFull)
                    && final(self).sent() == old(self).sent())
            },
    {
        if self.producer.is_none() {
            return Err(EngineError::NotInitialized);
        }
        self.send(ControlMessage::StopAll)
    }

    /// Unloads pad `id`: stops its voices and clears its bank slot.
    pub fn unload_sample(&mut self, id: usize) -> (r: Result<(), EngineError>)
        ensures
            id >= crate::NUM_SAMPLES ==> r == Err::<(), EngineError>(EngineError::InvalidId)
                && *final(self) == *old(self),
            id < crate::NUM_SAMPLES && !old(self).can_send() ==> r == Err::<(),
                EngineError,
            >(EngineError::NotInitialized) && *final(self) == *old(self),
            id < crate::NUM_SAMPLES && old(self).can_send() ==> {
                &&& final(self).can_send()
                &&& final(self).consumer == old(self).consumer
                &&& final(self).same_config(old(self))
                &&& (r is Ok ==> final(self).sent() == old(self).sent().push(
                    ControlMessage::UnloadSample { id },
                ))
                &&& (r is Err ==> r == Err::<(), EngineError>(EngineError::QueueFull)
                    && final(self).sent() == old(self).sent())
            },
    {
        if id >= crate::NUM_SAMPLES {
            return Err(EngineError::InvalidId);
        }
        if self.producer.is_none() {
            return Err(EngineError::NotInitialized);
        }
        self.send(ControlMessage::UnloadSample { id })
    }

    /// Sets the global volume (`0 ..= VOLUME_MAX`).
    pub fn set_volume(&mut self, volume: i64) -> (r: Result<(), EngineError>)
        ensures
            !(0 <= volume <= crate::VOLUME_MAX) ==> r == Err::<(), EngineError>(
                EngineError::InvalidValue,
            ) && *final(self) == *old(self),
            0 <= volume <= crate::VOLUME_MAX && !old(self).can_send() ==> r == Err::<(),
                EngineError,
            >(EngineError::NotInitialized) && *final(self) == *old(self),
            0 <= volume <= crate::VOLUME_MAX && old(self).can_send() ==> {
                &&& final(self).can_send()
                &&& final(self).consumer == old(self).consumer
                &&& final(self).same_config(old(self))
                &&& (r is Ok ==> final(self).sent() == old(self).sent().push(
                    ControlMessage::SetVolume(volume),
                ))
                &&& (r is Err ==> r == Err::<(), EngineError>(EngineError::QueueFull)
                    && final(self).sent() == old(self).sent())
            },
    {
        if volume < 0 || volume > crate::VOLUME_MAX {
            return Err(EngineError::InvalidValue);
        }
        if self.producer.is_none() {
            return Err(EngineError::NotInitialized);
        }
        self.send(ControlMessage::SetVolume(volume))
    }

    /// Sets the global speed (`SPEED_MIN ..= SPEED_MAX`).
    pub fn set_speed(&mut self, speed: i64) -> (r: Result<(), EngineError>)
        ensures
            !(crate::SPEED_MIN <= speed <= crate::SPEED_MAX) ==> r == Err::<(), EngineError>(
                EngineError::InvalidValue,
            ) && *final(self) == *old(self),
            crate::SPEED_MIN <= speed <= crate::SPEED_MAX && !old(self).can_send() ==> r
                == Err::<(), EngineError>(EngineError::NotInitialized) && *final(self) == *old(self),
            crate::SPEED_MIN <= speed <= crate::SPEED_MAX && old(self).can_send() ==> {
                &&& final(self).can_send()
                &&& final(self).consumer == old(self).consumer
                &&& final(self).same_config(old(self))
                &&& (r is Ok ==> final(self).sent() == old(self).sent().push(
                    ControlMessage::SetSpeed(speed),
                ))
                &&& (r is Err ==> r == Err::<(), EngineError>(EngineError::QueueFull)
                    && final(self).sent() == old(self).sent())
            },
    {
        if speed < crate::SPEED_MIN || speed > crate::SPEED_MAX {
            return Err(EngineError::InvalidValue);
        }
        if self.producer.is_none() {
            return Err(EngineError::NotInitialized);
        }
        self.send(ControlMessage::SetSpeed(speed))
    }

    /// Sets the master BPM, in thousandths of a beat per minute.
    pub fn set_master_bpm(&mut self, bpm: i64) -> (r: Result<(), EngineError>)
        ensures
            !(0 < bpm <= crate::mixer::BPM_MAX) ==> r == Err::<(), EngineError>(
                EngineError::InvalidValue,
            ) && *final(self) == *old(self),
            0 < bpm <= crate::mixer::BPM_MAX && !old(self).can_send() ==> r == Err::<(),
                EngineError,
            >(EngineError::NotInitialized) && *final(self) == *old(self),
            0 < bpm <= crate::mixer::BPM_MAX && old(self).can_send() ==> {
                &&& final(self).can_send()
                &&& final(self).consumer == old(self).consumer
                &&& final(self).same_config(old(self))
                &&& (r is Ok ==> final(self).sent() == old(self).sent().push(
                    ControlMessage::SetMasterBpm(bpm),
                ))
                &&& (r is Err ==> r == Err::<(), EngineError>(EngineError::QueueFull)
                    && final(self).sent() == old(self).sent())
            },
    {
        if bpm <= 0 || bpm > crate::mixer::BPM_MAX {
            return Err(EngineError::InvalidValue);
        }
        if self.producer.is_none() {
            return Err(EngineError::NotInitialized);
        }
        self.send(ControlMessage::SetMasterBpm(bpm))
    }

    /// Enables or disables BPM lock.
    pub fn set_bpm_lock(&mut self, enabled: bool) -> (r: Result<(), EngineError>)
        ensures
            !old(self).can_send() ==> r == Err::<(), EngineError>(EngineError::NotInitialized)
                && *final(self) == *old(self),
            old(self).can_send() ==> {
                &&& final(self).can_send()
                &&& final(self).consumer == old(self).consumer
                &&& final(self).same_config(old(self))
                &&& (r is Ok ==> final(self).sent() == old(self).sent().push(
                    ControlMessage::SetBpmLock(enabled),
                ))
                &&& (r is Err ==> r == Err::<(), EngineError>(EngineError::QueueFull)
                    && final(self).sent() == old(self).sent())
            },
    {
        if self.producer.is_none() {
            return Err(EngineError::NotInitialized);
        }
        self.send(ControlMessage::SetBpmLock(enabled))
    }

    /// Enables or disables key lock.
    pub fn set_key_lock(&mut self, enabled: bool) -> (r: Result<(), EngineError>)
        ensures
            !old(self).can_send() ==> r == Err::<(), EngineError>(EngineError::NotInitialized)
                && *final(self) == *old(self),
            old(self).can_send() ==> {
                &&& final(self).can_send()
                &&& final(self).consumer == old(self).consumer
                &&& final(self).same_config(old(self))
                &&& (r is Ok ==> final(self).sent() == old(self).sent().push(
                    ControlMessage::SetKeyLock(enabled),
                ))
                &&& (r is Err ==> r == Err::<(), EngineError>(EngineError::QueueFull)
                    && final(self).sent() == old(self).sent())
            },
    {
        if self.producer.is_none() {
            return Err(EngineError::NotInitialized);
        }
        self.send(ControlMessage::SetKeyLock(enabled))
    }

    /// Sets or clears the BPM of one pad, in thousandths of a beat per
    /// minute.
    pub fn set_pad_bpm(&mut self, id: usize, bpm: Option<i64>) -> (r: Result<(), EngineError>)
        ensures
            id >= crate::NUM_SAMPLES ==> r == Err::<(), EngineError>(EngineError::InvalidId)
                && *final(self) == *old(self),
            id < crate::NUM_SAMPLES && (bpm matches Some(b) && !(0 < b
                <= crate::mixer::BPM_MAX)) ==> r == Err::<(), EngineError>(
                EngineError::InvalidValue,
            ) && *final(self) == *old(self),
            id < crate::NUM_SAMPLES && (bpm matches Some(b) ==> 0 < b <= crate::mixer::BPM_MAX)
                && !old(self).can_send() ==> r == Err::<(), EngineError>(
                EngineError::NotInitialized,
            ) && *final(self) == *old(self),
            id < crate::NUM_SAMPLES && (bpm matches Some(b) ==> 0 < b <= crate::mixer::BPM_MAX)
                && old(self).can_send() ==> {
                &&& final(self).can_send()
                &&& final(self).consumer == old(self).consumer
                &&& final(self).same_config(old(self))
                &&& (r is Ok ==> final(self).sent() == old(self).sent().push(
                    ControlMessage::SetPadBpm { id, bpm },
                ))
                &&& (r is Err ==> r == Err::<(), EngineError>(EngineError::QueueFull)
                    && final(self).sent() == old(self).sent())
            },
    {
        if id >= crate::NUM_SAMPLES {
            return Err(EngineError::InvalidId);
        }
        let valid = match bpm {
            Some(b) => 0 < b && b <= crate::mixer::BPM_MAX,
            None => true,
        };
        if !valid {
            return Err(EngineError::InvalidValue);
        }
        if self.producer.is_none() {
            return Err(EngineError::NotInitialized);
        }
        self.send(ControlMessage::SetPadBpm { id, bpm })
    }

    /// Sets the gain of one pad (`0 ..= PAD_GAIN_MAX`).
    pub fn set_pad_gain(&mut self, id: usize, gain: i64) -> (r: Result<(), EngineError>)
        ensures
            id >= crate::NUM_SAMPLES ==> r == Err::<(), EngineError>(EngineError::InvalidId)
                && *final(self) == *old(self),
            id < crate::NUM_SAMPLES && !(0 <= gain <= crate::PAD_GAIN_MAX) ==> r == Err::<(),
                EngineError,
            >(EngineError::InvalidValue) && *final(self) == *old(self),
            id < crate::NUM_SAMPLES && 0 <= gain <= crate::PAD_GAIN_MAX && !old(self).can_send()
                ==> r == Err::<(), EngineError>(EngineError::NotInitialized) && *final(self)
                == *old(self),
            id < crate::NUM_SAMPLES && 0 <= gain <= crate::PAD_GAIN_MAX && old(self).can_send()
                ==> {
                &&& final(self).can_send()
                &&& final(self).consumer == old(self).consumer
                &&& final(self).same_config(old(self))
                &&& (r is Ok ==> final(self).sent() == old(self).sent().push(
                    ControlMessage::SetPadGain { id, gain },
                ))
                &&& (r is Err ==> r == Err::<(), EngineError>(EngineError::QueueFull)
                    && final(self).sent() == old(self).sent())
            },
    {
        if id >= crate::NUM_SAMPLES {
            return Err(EngineError::InvalidId);
        }
        if gain < 0 || gain > crate::PAD_GAIN_MAX {
            return Err(EngineError::InvalidValue);
        }
        if self.producer.is_none() {
            return Err(EngineError::NotInitialized);
        }
        self.send(ControlMessage::SetPadGain { id, gain })
    }

    /// Sets the 3-band EQ of one pad, in thousandths of a decibel per band
    /// (`PAD_EQ_DB_MIN ..= PAD_EQ_DB_MAX`).
    pub fn set_pad_eq(&mut self, id: usize, low_db: i64, mid_db: i64, high_db: i64) -> (r: Result<
        (),
        EngineError,
    >)
        ensures
            id >= crate::NUM_SAMPLES ==> r == Err::<(), EngineError>(EngineError::InvalidId)
                && *final(self) == *old(self),
            id < crate::NUM_SAMPLES && !(crate::PAD_EQ_DB_MIN <= low_db <= crate::PAD_EQ_DB_MAX
                && crate::PAD_EQ_DB_MIN <= mid_db <= crate::PAD_EQ_DB_MAX && crate::PAD_EQ_DB_MIN
                <= high_db <= crate::PAD_EQ_DB_MAX) ==> r == Err::<(), EngineError>(
                EngineError::InvalidValue,
            ) && *final(self) == *old(self),
            id < crate::NUM_SAMPLES && crate::PAD_EQ_DB_MIN <= low_db <= crate::PAD_EQ_DB_MAX
                && crate::PAD_EQ_DB_MIN <= mid_db <= crate::PAD_EQ_DB_MAX && crate::PAD_EQ_DB_MIN
                <= high_db <= crate::PAD_EQ_DB_MAX && !old(self).can_send() ==> r == Err::<(),
                EngineError,
            >(EngineError::NotInitialized) && *final(self) == *old(self),
            id < crate::NUM_SAMPLES && crate::PAD_EQ_DB_MIN <= low_db <= crate::PAD_EQ_DB_MAX
                && crate::PAD_EQ_DB_MIN <= mid_db <= crate::PAD_EQ_DB_MAX && crate::PAD_EQ_DB_MIN
                <= high_db <= crate::PAD_EQ_DB_MAX && old(self).can_send() ==> {
                &&& final(self).can_send()
                &&& final(self).consumer == old(self).consumer
                &&& final(self).same_config(old(self))
                &&& (r is Ok ==> final(self).sent() == old(self).sent().push(
                    ControlMessage::SetPadEq { id, low_db, mid_db, high_db },
                ))
                &&& (r is Err ==> r == Err::<(), EngineError>(EngineError::QueueFull)
                    && final(self).sent() == old(self).sent())
            },
    {
        if id >= crate::NUM_SAMPLES {
            return Err(EngineError::InvalidId);
        }
        let in_range = crate::PAD_EQ_DB_MIN <= low_db && low_db <= crate::PAD_EQ_DB_MAX
            && crate::PAD_EQ_DB_MIN <= mid_db && mid_db <= crate::PAD_EQ_DB_MAX
            && crate::PAD_EQ_DB_MIN <= high_db && high_db <= crate::PAD_EQ_DB_MAX;
        if !in_range {
            return Err(EngineError::InvalidValue);
        }
        if self.producer.is_none() {
            return Err(EngineError::NotInitialized);
        }
        self.send(ControlMessage::SetPadEq { id, low_db, mid_db, high_db })
    }

    /// Sets the loop region of one pad as a half-open time range in
    /// microseconds, converted to frames at the stream's sample rate.
    pub fn set_pad_loop_region(&mut self, id: usize, start_us: u64, end_us: Option<u64>) -> (r:
        Result<(), EngineError>)
        ensures
            id >= crate::NUM_SAMPLES ==> r == Err::<(), EngineError>(EngineError::InvalidId)
                && *final(self) == *old(self),
            id < crate::NUM_SAMPLES && (!old(self).can_send() || old(self).output_sample_rate
                is None) ==> r == Err::<(), EngineError>(EngineError::NotInitialized) && *final(self) == *old(self),
            id < crate::NUM_SAMPLES && old(self).can_send() ==> (old(self).output_sample_rate
                matches Some(rate) ==> {
                let sf = spec_us_to_frames(start_us as int, rate as int);
                let ef = match end_us {
                    Some(e) => Some(spec_us_to_frames(e as int, rate as int)),
                    None => None,
                };
                &&& (!(sf <= usize::MAX && (ef matches Some(e) ==> e <= usize::MAX)) ==> r
                    == Err::<(), EngineError>(EngineError::InvalidValue) && *final(self) == *old(self))
                &&& (sf <= usize::MAX && (ef matches Some(e) ==> e <= usize::MAX) ==> {
                    &&& final(self).can_send()
                    &&& final(self).consumer == old(self).consumer
                    &&& final(self).same_config(old(self))
                    &&& (r is Ok ==> final(self).sent().len() == old(self).sent().len() + 1
                        && final(self).sent().take(old(self).sent().len() as int) == old(self).sent() && (final(self).sent().last() matches ControlMessage::SetPadLoopRegion {
                        id: lid,
                        start_frame,
                        end_frame,
                    } && lid == id && start_frame == sf && (match (end_frame, ef) {
                        (Some(a), Some(b)) => a == b,
                        (None, None) => true,
                        _ => false,
                    })))
                    &&& (r is Err ==> r == Err::<(), EngineError>(EngineError::QueueFull)
                        && final(self).sent() == old(self).sent())
                })
            }),
    {
        if id >= crate::NUM_SAMPLES {
            return Err(EngineError::InvalidId);
        }
        if self.producer.is_none() {
            return Err(EngineError::NotInitialized);
        }
        let rate: u32 = match self.output_sample_rate {
            Some(rt) => rt,
            None => {
                return Err(EngineError::NotInitialized);
            },
        };
        proof {
            crate::fixed::mul_bound(start_us as int, 0x1_0000_0000_0000_0000, rate as int, 0x1_0000_0000);
        }
        let sf_wide: u128 = (start_us as u128) * (rate as u128) / 1_000_000;
        if sf_wide > usize::MAX as u128 {
            return Err(EngineError::InvalidValue);
        }
        let start_frame: usize = sf_wide as usize;
        let end_frame: Option<usize> = match end_us {
            Some(e) => {
                proof {
                    crate::fixed::mul_bound(e as int, 0x1_0000_0000_0000_0000, rate as int, 0x1_0000_0000);
                }
                let ef_wide: u128 = (e as u128) * (rate as u128) / 1_000_000;
                if ef_wide > usize::MAX as u128 {
                    return Err(EngineError::InvalidValue);
                }
                Some(ef_wide as usize)
            },
            None => None,
        };
        let ghost sent0 = self.sent();
        let r = self.send(ControlMessage::SetPadLoopRegion { id, start_frame, end_frame });
        proof {
            if r is Ok {
                assert(final(self).sent().take(sent0.len() as int) =~= sent0);
            }
        }
        r
    }

    /// Sends a ping that the audio thread answers with a pong.
    pub fn ping(&mut self) -> (r: Result<(), EngineError>)
        ensures
            !old(self).can_send() ==> r == Err::<(), EngineError>(EngineError::NotInitialized)
                && *final(self) == *old(self),
            old(self).can_send() ==> {
                &&& final(self).can_send()
                &&& final(self).consumer == old(self).consumer
                &&& final(self).same_config(old(self))
                &&& (r is Ok ==> final(self).sent() == old(self).sent().push(ControlMessage::Ping))
                &&& (r is Err ==> r == Err::<(), EngineError>(EngineError::QueueFull)
                    && final(self).sent() == old(self).sent())
            },
    {
        if self.producer.is_none() {
            return Err(EngineError::NotInitialized);
        }
        self.send(ControlMessage::Ping)
    }

    /// Receives at most one pending message from the audio thread.
    pub fn receive_msg(&mut self) -> (r: Result<Option<AudioMessage>, EngineError>)
        ensures
            !old(self).can_receive() ==> r == Err::<Option<AudioMessage>, EngineError>(
                EngineError::NotInitialized,
            ) && *final(self) == *old(self),
            old(self).can_receive() ==> {
                &&& final(self).can_receive()
                &&& final(self).same_config(old(self))
                &&& final(self).producer == old(self).producer
                &&& (r matches Ok(Some(m)) ==> final(self).received() == old(self).received().push(m))
                &&& (r == Ok::<Option<AudioMessage>, EngineError>(None) ==> final(self).received()
                    == old(self).received())
                &&& r is Ok
            },
    {
        if self.consumer.is_none() {
            return Err(EngineError::NotInitialized);
        }
        match &mut self.consumer {
            Some(c) => Ok(pop_audio(c)),
            None => Err(EngineError::NotInitialized),
        }
    }
}

/// One audio-callback drain: pops at most `RING_CAPACITY` queued control
/// messages and applies each to the mixer exactly once, in FIFO order;
/// every `Ping` is answered with a `Pong` on the audio ring, best effort.
///
/// The messages applied are exactly those popped: the mixer ends in the
/// state reached by folding them, oldest first, into its model.  On the
/// audio ring the drain only appends, everything it appends is a `Pong`,
/// and it appends at most one per popped `Ping` (a full ring drops the
/// answer, which is the documented best effort).
#[verifier::loop_isolation(false)]
pub fn drain_control(
    mixer: &mut RtMixer,
    control: &mut rtrb::Consumer<ControlMessage>,
    audio: &mut rtrb::Producer<AudioMessage>,
)
    requires
        old(mixer).wf(),
    ensures
        final(mixer).wf(),
        control_popped(*final(control)).len() >= control_popped(*old(control)).len(),
        control_popped(*final(control)).take(
            control_popped(*old(control)).len() as int,
        ) == control_popped(*old(control)),
        final(mixer).model() == spec_apply_all(
            old(mixer).model(),
            control_popped(*final(control)).skip(control_popped(*old(control)).len() as int),
        ),
        audio_pushed(*final(audio)).len() >= audio_pushed(*old(audio)).len(),
        audio_pushed(*final(audio)).take(audio_pushed(*old(audio)).len() as int) == audio_pushed(
            *old(audio),
        ),
        forall|i: int|
            audio_pushed(*old(audio)).len() <= i < audio_pushed(*final(audio)).len()
                ==> audio_pushed(*final(audio))[i] == AudioMessage::Pong,
        audio_pushed(*final(audio)).len() - audio_pushed(*old(audio)).len() <= spec_count_pings(
            control_popped(*final(control)).skip(control_popped(*old(control)).len() as int),
        ),
{
    let ghost m0 = mixer.model();
    let ghost popped0 = control_popped(*control);
    let ghost apushed0 = audio_pushed(*audio);
    let mut budget: usize = RING_CAPACITY;
    while budget > 0
        invariant
            mixer.wf(),
            control_popped(*control).len() >= popped0.len(),
            control_popped(*control).take(popped0.len() as int) == popped0,
            mixer.model() == spec_apply_all(
                m0,
                control_popped(*control).skip(popped0.len() as int),
            ),
            audio_pushed(*audio).len() >= apushed0.len(),
            audio_pushed(*audio).take(apushed0.len() as int) == apushed0,
            forall|i: int|
                apushed0.len() <= i < audio_pushed(*audio).len() ==> audio_pushed(*audio)[i]
                    == AudioMessage::Pong,
            audio_pushed(*audio).len() - apushed0.len() <= spec_count_pings(
                control_popped(*control).skip(popped0.len() as int),
            ),
        decreases budget,
    {
        let ghost popped_pre = control_popped(*control);
        let ghost apushed_pre = audio_pushed(*audio);
        match pop_control(control) {
            Some(msg) => {
                let ghost msg0 = msg;
                proof {
                    assert(control_popped(*control) =~= popped_pre.push(msg0));
                    assert(control_popped(*control).take(popped0.len() as int) =~= popped0);
                    assert(control_popped(*control).skip(popped0.len() as int) =~= popped_pre.skip(
                        popped0.len() as int,
                    ).push(msg0));
                    lemma_apply_all_snoc(m0, popped_pre.skip(popped0.len() as int), msg0);
                    assert(control_popped(*control).skip(popped0.len() as int).drop_last()
                        =~= popped_pre.skip(popped0.len() as int));
                }
                if let ControlMessage::Ping = &msg {
                    let _answered = push_audio(audio, AudioMessage::Pong);
                    proof {
                        if _answered is Ok {
                            assert(audio_pushed(*audio) =~= apushed_pre.push(AudioMessage::Pong));
                            assert(audio_pushed(*audio).take(apushed0.len() as int) =~= apushed0);
                        }
                    }
                }
                mixer.apply_message(msg);
            },
            None => {
                return;
            },
        }
        budget = budget - 1;
    }
}

/// How many of the messages are pings.
pub open spec fn spec_count_pings(s: Seq<ControlMessage>) -> nat
    decreases s.len(),
{
    if s.len() == 0 {
        0
    } else {
        spec_count_pings(s.drop_last()) + (if s.last() is Ping {
            1nat
        } else {
            0nat
        })
    }
}


/// Control-side bookkeeping of background work: which pads are currently
/// loading, which are being analyzed, and the off-thread shadow copy of
/// each loaded sample (used for re-analysis without touching the audio
/// thread).  A pad appears at most once in each set, and duplicate work is
/// rejected before it starts.
pub struct LoaderRegistry {
    /// Whether a load is in flight for each pad.
    pub loading: Vec<bool>,
    /// Whether an analysis is in flight for each pad.
    pub analyzing: Vec<bool>,
    /// Off-thread copy of each loaded sample.
    pub shadow: Vec<Option<SampleBuffer>>,
}

impl LoaderRegistry {
    /// All three tables cover exactly the pad range.
    pub open spec fn wf(&self) -> bool {
        &&& self.loading@.len() == crate::NUM_SAMPLES
        &&& self.analyzing@.len() == crate::NUM_SAMPLES
        &&& self.shadow@.len() == crate::NUM_SAMPLES
    }

    /// A fresh registry: nothing loading, nothing analyzing, no shadows.
    pub fn new() -> (r: Self)
        ensures
            r.wf(),
            forall|i: int| 0 <= i < crate::NUM_SAMPLES ==> !r.loading@[i],
            forall|i: int| 0 <= i < crate::NUM_SAMPLES ==> !r.analyzing@[i],
            forall|i: int| 0 <= i < crate::NUM_SAMPLES ==> r.shadow@[i] is None,
    {
        let mut loading: Vec<bool> = Vec::new();
        let mut analyzing: Vec<bool> = Vec::new();
        let mut shadow: Vec<Option<SampleBuffer>> = Vec::new();
        let mut i: usize = 0;
        while i < crate::NUM_SAMPLES
            invariant
                i <= crate::NUM_SAMPLES,
                loading@.len() == i,
                analyzing@.len() == i,
                shadow@.len() == i,
                forall|k: int| 0 <= k < i as int ==> !loading@[k],
                forall|k: int| 0 <= k < i as int ==> !analyzing@[k],
                forall|k: int| 0 <= k < i as int ==> shadow@[k] is None,
            decreases crate::NUM_SAMPLES - i,
        {
            loading.push(false);
            analyzing.push(false);
            shadow.push(None);
            i = i + 1;
        }
        LoaderRegistry { loading, analyzing, shadow }
    }

    /// Reserves pad `id` for a load: rejects an out-of-range id and a pad
    /// that is already loading; otherwise marks the pad loading and clears
    /// its shadow copy.
    pub fn begin_load(&mut self, id: usize) -> (r: Result<(), EngineError>)
        requires
            old(self).wf(),
        ensures
            final(self).wf(),
            id >= crate::NUM_SAMPLES ==> r == Err::<(), EngineError>(EngineError::InvalidId)
                && *final(self) == *old(self),
            id < crate::NUM_SAMPLES && old(self).loading@[id as int] ==> r == Err::<(),
                EngineError,
            >(EngineError::AlreadyLoading) && *final(self) == *old(self),
            id < crate::NUM_SAMPLES && !old(self).loading@[id as int] ==> {
                &&& r is Ok
                &&& final(self).loading@ == old(self).loading@.update(id as int, true)
                &&& final(self).shadow@ == old(self).shadow@.update(
                    id as int,
                    None::<SampleBuffer>,
                )
                &&& final(self).analyzing@ == old(self).analyzing@
            },
    {
        if id >= crate::NUM_SAMPLES {
            return Err(EngineError::InvalidId);
        }
        if self.loading[id] {
            return Err(EngineError::AlreadyLoading);
        }
        self.loading[id] = true;
        self.shadow[id] = None;
        Ok(())
    }

    /// Releases the loading reservation of pad `id` and stores the loaded
    /// sample as its shadow copy (`None` when the load failed).
    pub fn finish_load(&mut self, id: usize, sample: Option<SampleBuffer>)
        requires
            old(self).wf(),
        ensures
            final(self).wf(),
            id >= crate::NUM_SAMPLES ==> *final(self) == *old(self),
            id < crate::NUM_SAMPLES ==> {
                &&& final(self).loading@ == old(self).loading@.update(id as int, false)
                &&& final(self).shadow@ == old(self).shadow@.update(id as int, sample)
                &&& final(self).analyzing@ == old(self).analyzing@
            },
    {
        if id >= crate::NUM_SAMPLES {
            return;
        }
        self.loading[id] = false;
        self.shadow[id] = sample;
    }

    /// Reserves pad `id` for an analysis: rejects an out-of-range id, a pad
    /// that is loading, one that is already being analyzed, and one without
    /// a shadow copy.
    pub fn begin_analysis(&mut self, id: usize) -> (r: Result<(), EngineError>)
        requires
            old(self).wf(),
        ensures
            final(self).wf(),
            id >= crate::NUM_SAMPLES ==> r == Err::<(), EngineError>(EngineError::InvalidId)
                && *final(self) == *old(self),
            id < crate::NUM_SAMPLES && old(self).loading@[id as int] ==> r == Err::<(),
                EngineError,
            >(EngineError::AlreadyLoading) && *final(self) == *old(self),
            id < crate::NUM_SAMPLES && !old(self).loading@[id as int] && old(self).analyzing@[id as int] ==> r == Err::<(), EngineError>(EngineError::AlreadyRunningTask) && *final(self)
                == *old(self),
            id < crate::NUM_SAMPLES && !old(self).loading@[id as int] && !old(self).analyzing@[id as int] && old(self).shadow@[id as int] is None ==> r == Err::<(), EngineError>(
                EngineError::NoShadowCopy,
            ) && *final(self) == *old(self),
            id < crate::NUM_SAMPLES && !old(self).loading@[id as int] && !old(self).analyzing@[id as int] && old(self).shadow@[id as int] is Some ==> {
                &&& r is Ok
                &&& final(self).analyzing@ == old(self).analyzing@.update(id as int, true)
                &&& final(self).loading@ == old(self).loading@
                &&& final(self).shadow@ == old(self).shadow@
            },
    {
        if id >= crate::NUM_SAMPLES {
            return Err(EngineError::InvalidId);
        }
        if self.loading[id] {
            return Err(EngineError::AlreadyLoading);
        }
        if self.analyzing[id] {
            return Err(EngineError::AlreadyRunningTask);
        }
        let has_shadow = match &self.shadow[id] {
            Some(_) => true,
            None => false,
        };
        if !has_shadow {
            return Err(EngineError::NoShadowCopy);
        }
        self.analyzing[id] = true;
        Ok(())
    }

    /// Releases the analysis reservation of pad `id`.
    pub fn finish_analysis(&mut self, id: usize)
        requires
            old(self).wf(),
        ensures
            final(self).wf(),
            id >= crate::NUM_SAMPLES ==> *final(self) == *old(self),
            id < crate::NUM_SAMPLES ==> {
                &&& final(self).analyzing@ == old(self).analyzing@.update(id as int, false)
                &&& final(self).loading@ == old(self).loading@
                &&& final(self).shadow@ == old(self).shadow@
            },
    {
        if id >= crate::NUM_SAMPLES {
            return;
        }
        self.analyzing[id] = false;
    }

    /// The shadow copy of pad `id`, if any.
    pub fn shadow_sample(&self, id: usize) -> (r: Option<&SampleBuffer>)
        requires
            self.wf(),
            id < crate::NUM_SAMPLES,
        ensures
            r matches Some(b) ==> self.shadow@[id as int] matches Some(sb) && *b == sb,
            r is None ==> self.shadow@[id as int] is None,
    {
        match &self.shadow[id] {
            Some(b) => Some(b),
            None => None,
        }
    }
}

/// Microseconds converted to frames at a sample rate: `us * rate / 1e6`.
pub open spec fn spec_us_to_frames(us: int, rate: int) -> int {
    us * rate / 1_000_000
}

} // verus!
