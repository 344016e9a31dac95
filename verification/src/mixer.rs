//! The real-time mixer: sample bank, voice pool, per-pad parameters, and the
//! application of control messages at block boundaries.
//!
//! The mixer's whole state is mirrored by a mathematical model
//! ([`MixerModel`]); every operation's contract says exactly how it rewrites
//! that model.  [`RtMixer::apply_message`] is the single entry point the
//! audio callback uses to apply queued control messages, and its semantics
//! is the spec function [`spec_apply`].

use vstd::prelude::*;

use crate::eq3::CrossoverCoeffs;
use crate::eq3::Eq3Coeffs;
use crate::eq3::Eq3State;
use crate::eq3::spec_db_to_gain;
use crate::eq3::spec_zero_eq3_state;
use crate::eq3::coeffs_for_eq3;
use crate::fixed::clip;
use crate::fixed::clip_i64;
use crate::messages::ControlMessage;
use crate::messages::SampleBuffer;
use crate::voice_slot::VoiceSlot;
use crate::voice_slot::spec_stopped_slot;

verus! {

/// Largest accepted BPM value, in thousandths of a beat per minute.
pub const BPM_MAX: i64 = 1_000_000_000;

/// The mathematical content of a sample buffer.
#[verifier::ext_equal]
pub struct BufModel {
    pub channels: nat,
    pub samples: Seq<i32>,
}

/// The mathematical content of a [`SampleBuffer`].
pub open spec fn buf_model(b: SampleBuffer) -> BufModel {
    BufModel { channels: b.channels as nat, samples: b.samples@ }
}

/// The mathematical content of an optional [`SampleBuffer`].
pub open spec fn opt_buf_model(o: Option<SampleBuffer>) -> Option<BufModel> {
    match o {
        Some(b) => Some(buf_model(b)),
        None => None,
    }
}

/// Number of whole frames a buffer model holds.
pub open spec fn buf_frames(b: BufModel) -> int {
    b.samples.len() as int / b.channels as int
}

/// The mathematical content of one voice slot.
#[verifier::ext_equal]
pub struct VoiceModel {
    pub active: bool,
    pub sample_id: int,
    pub sample: Option<BufModel>,
    pub frame_pos: int,
    pub volume: int,
    pub tempo_ratio: int,
    pub eq_left: Eq3State,
    pub eq_right: Eq3State,
    pub paused: bool,
}

/// The mathematical content of a [`VoiceSlot`].
pub open spec fn voice_model(v: VoiceSlot) -> VoiceModel {
    VoiceModel {
        active: v.active,
        sample_id: v.sample_id as int,
        sample: opt_buf_model(v.sample),
        frame_pos: v.frame_pos as int,
        volume: v.volume as int,
        tempo_ratio: v.tempo_ratio_smoothed as int,
        eq_left: v.eq_left,
        eq_right: v.eq_right,
        paused: v.paused,
    }
}

/// The model of a quiescent voice slot.
pub open spec fn stopped_voice_model() -> VoiceModel {
    voice_model(spec_stopped_slot())
}

/// The mathematical content of the whole mixer state.
#[verifier::ext_equal]
pub struct MixerModel {
    pub channels: int,
    pub volume: int,
    pub speed: int,
    pub bpm_lock_enabled: bool,
    pub key_lock_enabled: bool,
    pub master_bpm: Option<int>,
    pub crossover: CrossoverCoeffs,
    pub bank: Seq<Option<BufModel>>,
    pub pad_bpm: Seq<Option<int>>,
    pub pad_gain: Seq<int>,
    pub pad_eq: Seq<Eq3Coeffs>,
    pub pad_loop_start: Seq<int>,
    pub pad_loop_end: Seq<Option<int>>,
    pub pad_playhead: Seq<Option<int>>,
    pub voices: Seq<VoiceModel>,
}

/// Well-formedness of the mixer model: all pools have their fixed sizes,
/// all parameters sit in their documented ranges, every bank entry matches
/// the engine's channel count, and every active voice holds a matching,
/// well-formed sample handle.
pub open spec fn wf_model(m: MixerModel) -> bool {
    &&& (m.channels == 1 || m.channels == 2)
    &&& 0 <= m.volume <= crate::VOLUME_MAX
    &&& crate::SPEED_MIN <= m.speed <= crate::SPEED_MAX
    &&& (m.master_bpm matches Some(b) ==> 0 < b <= BPM_MAX)
    &&& m.crossover.wf()
    &&& m.bank.len() == crate::NUM_SAMPLES
    &&& m.pad_bpm.len() == crate::NUM_SAMPLES
    &&& m.pad_gain.len() == crate::NUM_SAMPLES
    &&& m.pad_eq.len() == crate::NUM_SAMPLES
    &&& m.pad_loop_start.len() == crate::NUM_SAMPLES
    &&& m.pad_loop_end.len() == crate::NUM_SAMPLES
    &&& m.pad_playhead.len() == crate::NUM_SAMPLES
    &&& m.voices.len() == crate::MAX_VOICES
    &&& forall|i: int|
        0 <= i < crate::NUM_SAMPLES ==> (#[trigger] m.bank[i] matches Some(b) ==> b.channels
            == m.channels)
    &&& forall|i: int|
        0 <= i < crate::NUM_SAMPLES ==> (#[trigger] m.pad_bpm[i] matches Some(b) ==> 0 < b
            <= BPM_MAX)
    &&& forall|i: int| 0 <= i < crate::NUM_SAMPLES ==> 0 <= #[trigger] m.pad_gain[i] <= crate::PAD_GAIN_MAX
    &&& forall|i: int| 0 <= i < crate::NUM_SAMPLES ==> (#[trigger] m.pad_eq[i]).wf()
    &&& forall|v: int| 0 <= v < crate::MAX_VOICES ==> wf_voice(#[trigger] m.voices[v], m.channels)
}

/// Well-formedness of one voice model against the engine channel count.
pub open spec fn wf_voice(v: VoiceModel, channels: int) -> bool {
    &&& v.active ==> (v.sample matches Some(b) && b.channels == channels)
    &&& v.active ==> 0 <= v.sample_id < crate::NUM_SAMPLES
    &&& 0 <= v.volume <= crate::VOLUME_MAX
    &&& crate::SPEED_MIN <= v.tempo_ratio <= crate::SPEED_MAX
    &&& v.eq_left.wf()
    &&& v.eq_right.wf()
}

/// The first inactive voice slot at or after `i`, if any.
pub open spec fn first_inactive_from(vs: Seq<VoiceModel>, i: int) -> Option<int>
    decreases vs.len() - i,
{
    if i < 0 || i >= vs.len() {
        None
    } else if !vs[i].active {
        Some(i)
    } else {
        first_inactive_from(vs, i + 1)
    }
}

/// The effective tempo ratio of pad `id`: the global speed, overridden by
/// `master_bpm / pad_bpm` under BPM lock when both are set, clamped into the
/// speed range.
pub open spec fn spec_effective_ratio(m: MixerModel, id: int) -> int {
    let base = if m.bpm_lock_enabled && (m.master_bpm matches Some(mb)) && (m.pad_bpm[id]
        matches Some(pb)) {
        m.master_bpm->0 * (crate::AMP_UNIT as int) / m.pad_bpm[id]->0
    } else {
        m.speed
    };
    clip(base, crate::SPEED_MIN as int, crate::SPEED_MAX as int)
}

/// `LoadSample`: replace the bank slot when the id is in range and the
/// buffer's channel count matches the engine's; otherwise do nothing.
pub open spec fn spec_load_sample(m: MixerModel, id: int, b: BufModel) -> MixerModel {
    if 0 <= id < crate::NUM_SAMPLES && b.channels == m.channels {
        MixerModel { bank: m.bank.update(id, Some(b)), ..m }
    } else {
        m
    }
}

/// The voice model started by a valid `PlaySample` trigger.
pub open spec fn started_voice_model(m: MixerModel, id: int, velocity: int) -> VoiceModel {
    let b = m.bank[id]->0;
    let frames = buf_frames(b);
    let init = if m.pad_loop_start[id] <= frames {
        m.pad_loop_start[id]
    } else {
        frames
    };
    VoiceModel {
        active: true,
        sample_id: id,
        sample: Some(b),
        frame_pos: init,
        volume: velocity,
        tempo_ratio: spec_effective_ratio(m, id),
        eq_left: spec_zero_eq3_state(),
        eq_right: spec_zero_eq3_state(),
        paused: false,
    }
}

/// `PlaySample`: when the id is in range, the velocity is in range and the
/// slot is loaded, start the first inactive voice; when no voice is free,
/// drop the trigger.  Invalid triggers do nothing.
pub open spec fn spec_play_sample(m: MixerModel, id: int, velocity: int) -> MixerModel {
    if 0 <= id < crate::NUM_SAMPLES && 0 <= velocity <= crate::VOLUME_MAX && m.bank[id] is Some {
        match first_inactive_from(m.voices, 0) {
            Some(v) => MixerModel {
                voices: m.voices.update(v, started_voice_model(m, id, velocity)),
                ..m
            },
            None => m,
        }
    } else {
        m
    }
}

/// `StopSample`: stop every voice playing the pad.
pub open spec fn spec_stop_sample(m: MixerModel, id: int) -> MixerModel {
    if 0 <= id < crate::NUM_SAMPLES {
        MixerModel {
            voices: Seq::new(
                m.voices.len(),
                |v: int|
                    if m.voices[v].active && m.voices[v].sample_id == id {
                        stopped_voice_model()
                    } else {
                        m.voices[v]
                    },
            ),
            ..m
        }
    } else {
        m
    }
}

/// `StopAll`: return every voice slot to quiescence.
pub open spec fn spec_stop_all(m: MixerModel) -> MixerModel {
    MixerModel { voices: Seq::new(m.voices.len(), |v: int| stopped_voice_model()), ..m }
}

/// `UnloadSample`: stop the pad's voices, then clear its bank slot.
pub open spec fn spec_unload_sample(m: MixerModel, id: int) -> MixerModel {
    if 0 <= id < crate::NUM_SAMPLES {
        let stopped = spec_stop_sample(m, id);
        MixerModel { bank: stopped.bank.update(id, None), ..stopped }
    } else {
        m
    }
}

/// `SetVolume`: apply a volume in range, drop anything else.
pub open spec fn spec_set_volume(m: MixerModel, volume: int) -> MixerModel {
    if 0 <= volume <= crate::VOLUME_MAX {
        MixerModel { volume, ..m }
    } else {
        m
    }
}

/// `SetSpeed`: apply a speed in range, drop anything else.
pub open spec fn spec_set_speed(m: MixerModel, speed: int) -> MixerModel {
    if crate::SPEED_MIN <= speed <= crate::SPEED_MAX {
        MixerModel { speed, ..m }
    } else {
        m
    }
}

/// `SetMasterBpm`: apply a positive BPM, drop anything else.
pub open spec fn spec_set_master_bpm(m: MixerModel, bpm: int) -> MixerModel {
    if 0 < bpm <= BPM_MAX {
        MixerModel { master_bpm: Some(bpm), ..m }
    } else {
        m
    }
}

/// `SetBpmLock`: set the flag; disabling also clears the master BPM.
pub open spec fn spec_set_bpm_lock(m: MixerModel, enabled: bool) -> MixerModel {
    MixerModel {
        bpm_lock_enabled: enabled,
        master_bpm: if enabled {
            m.master_bpm
        } else {
            None
        },
        ..m
    }
}

/// `SetKeyLock`: set the flag.
pub open spec fn spec_set_key_lock(m: MixerModel, enabled: bool) -> MixerModel {
    MixerModel { key_lock_enabled: enabled, ..m }
}

/// `SetPadBpm`: set or clear the pad BPM when the id is in range and the
/// value, if any, is positive; otherwise do nothing.
pub open spec fn spec_set_pad_bpm(m: MixerModel, id: int, bpm: Option<int>) -> MixerModel {
    if 0 <= id < crate::NUM_SAMPLES && (bpm matches Some(b) ==> 0 < b <= BPM_MAX) {
        MixerModel { pad_bpm: m.pad_bpm.update(id, bpm), ..m }
    } else {
        m
    }
}

/// `SetPadGain`: apply a gain in range for an id in range.
pub open spec fn spec_set_pad_gain(m: MixerModel, id: int, gain: int) -> MixerModel {
    if 0 <= id < crate::NUM_SAMPLES && 0 <= gain <= crate::PAD_GAIN_MAX {
        MixerModel { pad_gain: m.pad_gain.update(id, gain), ..m }
    } else {
        m
    }
}

/// `SetPadEq`: derive band gains from decibel values in range and install
/// them with the engine's crossover; otherwise do nothing.
pub open spec fn spec_set_pad_eq(
    m: MixerModel,
    id: int,
    low_db: int,
    mid_db: int,
    high_db: int,
) -> MixerModel {
    if 0 <= id < crate::NUM_SAMPLES && crate::PAD_EQ_DB_MIN <= low_db <= crate::PAD_EQ_DB_MAX
        && crate::PAD_EQ_DB_MIN <= mid_db <= crate::PAD_EQ_DB_MAX && crate::PAD_EQ_DB_MIN <= high_db
        <= crate::PAD_EQ_DB_MAX {
        MixerModel {
            pad_eq: m.pad_eq.update(
                id,
                Eq3Coeffs {
                    crossover: m.crossover,
                    gain_low: spec_db_to_gain(low_db) as i64,
                    gain_mid: spec_db_to_gain(mid_db) as i64,
                    gain_high: spec_db_to_gain(high_db) as i64,
                },
            ),
            ..m
        }
    } else {
        m
    }
}

/// `SetPadLoopRegion`: store the half-open frame range for an id in range.
pub open spec fn spec_set_pad_loop_region(
    m: MixerModel,
    id: int,
    start_frame: int,
    end_frame: Option<int>,
) -> MixerModel {
    if 0 <= id < crate::NUM_SAMPLES {
        MixerModel {
            pad_loop_start: m.pad_loop_start.update(id, start_frame),
            pad_loop_end: m.pad_loop_end.update(id, end_frame),
            ..m
        }
    } else {
        m
    }
}

/// What one control message does to the mixer state.  `Ping` does not touch
/// the mixer; the callback answers it on the audio ring.
pub open spec fn spec_apply(m: MixerModel, msg: ControlMessage) -> MixerModel {
    match msg {
        ControlMessage::Ping => m,
        ControlMessage::SetVolume(v) => spec_set_volume(m, v as int),
        ControlMessage::SetSpeed(s) => spec_set_speed(m, s as int),
        ControlMessage::LoadSample { id, sample } => spec_load_sample(
            m,
            id as int,
            buf_model(sample),
        ),
        ControlMessage::PlaySample { id, velocity } => spec_play_sample(
            m,
            id as int,
            velocity as int,
        ),
        ControlMessage::StopSample { id } => spec_stop_sample(m, id as int),
        ControlMessage::StopAll => spec_stop_all(m),
        ControlMessage::UnloadSample { id } => spec_unload_sample(m, id as int),
        ControlMessage::SetMasterBpm(b) => spec_set_master_bpm(m, b as int),
        ControlMessage::SetBpmLock(e) => spec_set_bpm_lock(m, e),
        ControlMessage::SetKeyLock(e) => spec_set_key_lock(m, e),
        ControlMessage::SetPadBpm { id, bpm } => spec_set_pad_bpm(
            m,
            id as int,
            match bpm {
                Some(b) => Some(b as int),
                None => None,
            },
        ),
        ControlMessage::SetPadGain { id, gain } => spec_set_pad_gain(m, id as int, gain as int),
        ControlMessage::SetPadEq { id, low_db, mid_db, high_db } => spec_set_pad_eq(
            m,
            id as int,
            low_db as int,
            mid_db as int,
            high_db as int,
        ),
        ControlMessage::SetPadLoopRegion { id, start_frame, end_frame } => spec_set_pad_loop_region(
            m,
            id as int,
            start_frame as int,
            match end_frame {
                Some(e) => Some(e as int),
                None => None,
            },
        ),
    }
}

/// A sequence of control messages applied in order, oldest first.
pub open spec fn spec_apply_all(m: MixerModel, msgs: Seq<ControlMessage>) -> MixerModel
    decreases msgs.len(),
{
    if msgs.len() == 0 {
        m
    } else {
        spec_apply_all(spec_apply(m, msgs[0]), msgs.drop_first())
    }
}

/// Applying a batch and then one more message is the same as applying the
/// batch extended by that message: each queued message takes effect exactly
/// once, in queue order.
pub proof fn lemma_apply_all_snoc(m: MixerModel, s: Seq<ControlMessage>, x: ControlMessage)
    ensures
        spec_apply_all(m, s.push(x)) == spec_apply(spec_apply_all(m, s), x),
    decreases s.len(),
{
    reveal_with_fuel(spec_apply_all, 3);
    if s.len() == 0 {
        assert(s.push(x)[0] == x);
        assert(s.push(x).drop_first() =~= Seq::<ControlMessage>::empty());
    } else {
        assert(s.push(x)[0] == s[0]);
        assert(s.push(x).drop_first() =~= s.drop_first().push(x));
        lemma_apply_all_snoc(spec_apply(m, s[0]), s.drop_first(), x);
    }
}

/// Real-time mixer state: the sample bank, the voice pool, per-pad
/// parameters and the global parameters.
pub struct RtMixer {
    /// Number of output channels (1 for mono, 2 for stereo).
    pub channels: usize,
    /// Global volume multiplier, in `crate::AMP_UNIT` fixed point.
    pub volume: i64,
    /// Global speed multiplier, in `crate::AMP_UNIT` fixed point.
    pub speed: i64,
    /// Whether triggered pads are stretched to the master BPM.
    pub bpm_lock_enabled: bool,
    /// Whether pitch is preserved under tempo changes.
    pub key_lock_enabled: bool,
    /// Master BPM, in thousandths of a beat per minute.
    pub master_bpm: Option<i64>,
    /// Crossover sections shared by all pad EQs, designed for the output
    /// sample rate.
    pub crossover: CrossoverCoeffs,
    /// Sample storage with `NUM_SAMPLES` slots.
    pub sample_bank: Vec<Option<SampleBuffer>>,
    /// Per-pad BPM, in thousandths of a beat per minute.
    pub pad_bpm: Vec<Option<i64>>,
    /// Per-pad gain, in `crate::AMP_UNIT` fixed point.
    pub pad_gain: Vec<i64>,
    /// Per-pad 3-band EQ coefficients.
    pub pad_eq: Vec<Eq3Coeffs>,
    /// Per-pad loop start frame.
    pub pad_loop_start: Vec<usize>,
    /// Per-pad loop end frame (exclusive), `None` for the sample's end.
    pub pad_loop_end: Vec<Option<usize>>,
    /// Best-effort last-rendered playhead frame per pad.
    pub pad_playhead: Vec<Option<usize>>,
    /// The voice pool with `MAX_VOICES` slots.
    pub voices: Vec<VoiceSlot>,
}

impl RtMixer {
    /// The mathematical content of the mixer state.
    pub open spec fn model(&self) -> MixerModel {
        MixerModel {
            channels: self.channels as int,
            volume: self.volume as int,
            speed: self.speed as int,
            bpm_lock_enabled: self.bpm_lock_enabled,
            key_lock_enabled: self.key_lock_enabled,
            master_bpm: match self.master_bpm {
                Some(b) => Some(b as int),
                None => None,
            },
            crossover: self.crossover,
            bank: self.sample_bank@.map_values(|o: Option<SampleBuffer>| opt_buf_model(o)),
            pad_bpm: self.pad_bpm@.map_values(
                |o: Option<i64>|
                    match o {
                        Some(b) => Some(b as int),
                        None => None,
                    },
            ),
            pad_gain: self.pad_gain@.map_values(|g: i64| g as int),
            pad_eq: self.pad_eq@,
            pad_loop_start: self.pad_loop_start@.map_values(|s: usize| s as int),
            pad_loop_end: self.pad_loop_end@.map_values(
                |o: Option<usize>|
                    match o {
                        Some(e) => Some(e as int),
                        None => None,
                    },
            ),
            pad_playhead: self.pad_playhead@.map_values(
                |o: Option<usize>|
                    match o {
                        Some(p) => Some(p as int),
                        None => None,
                    },
            ),
            voices: self.voices@.map_values(|v: VoiceSlot| voice_model(v)),
        }
    }

    /// Well-formedness of the mixer state.
    pub open spec fn wf(&self) -> bool {
        wf_model(self.model())
    }

    /// A new mixer for the given channel count, with an empty bank, no
    /// active voices, full volume, unity speed, unity pad gains and neutral
    /// pad EQs.  The crossover sections start as pass-throughs; the host
    /// installs designed ones with [`RtMixer::set_crossover`].
    #[verifier::loop_isolation(false)]
    pub fn new(channels: usize) -> (r: Self)
        requires
            channels == 1 || channels == 2,
        ensures
            r.wf(),
            r.model().channels == channels,
            r.model().volume == crate::VOLUME_MAX,
            r.model().speed == crate::AMP_UNIT,
            !r.model().bpm_lock_enabled,
            !r.model().key_lock_enabled,
            r.model().master_bpm is None,
            r.model().crossover == crate::eq3::spec_identity_crossover(),
            forall|i: int| 0 <= i < crate::NUM_SAMPLES ==> r.model().bank[i] is None,
            forall|i: int| 0 <= i < crate::NUM_SAMPLES ==> r.model().pad_bpm[i] is None,
            forall|i: int| 0 <= i < crate::NUM_SAMPLES ==> r.model().pad_gain[i] == crate::PAD_GAIN_MAX,
            forall|i: int| 0 <= i < crate::NUM_SAMPLES ==> (r.model().pad_eq[i]).unity_gains(),
            forall|i: int| 0 <= i < crate::NUM_SAMPLES ==> r.model().pad_loop_start[i] == 0,
            forall|i: int| 0 <= i < crate::NUM_SAMPLES ==> r.model().pad_loop_end[i] is None,
            forall|i: int| 0 <= i < crate::NUM_SAMPLES ==> r.model().pad_playhead[i] is None,
            forall|v: int|
                0 <= v < crate::MAX_VOICES ==> r.model().voices[v] == stopped_voice_model(),
    {
        let mut sample_bank: Vec<Option<SampleBuffer>> = Vec::new();
        let mut pad_bpm: Vec<Option<i64>> = Vec::new();
        let mut pad_gain: Vec<i64> = Vec::new();
        let mut pad_eq: Vec<Eq3Coeffs> = Vec::new();
        let mut pad_loop_start: Vec<usize> = Vec::new();
        let mut pad_loop_end: Vec<Option<usize>> = Vec::new();
        let mut pad_playhead: Vec<Option<usize>> = Vec::new();
        let neutral_eq = Eq3Coeffs::identity();
        let mut i: usize = 0;
        while i < crate::NUM_SAMPLES
            invariant
                i <= crate::NUM_SAMPLES,
                sample_bank@.len() == i,
                pad_bpm@.len() == i,
                pad_gain@.len() == i,
                pad_eq@.len() == i,
                pad_loop_start@.len() == i,
                pad_loop_end@.len() == i,
                pad_playhead@.len() == i,
                forall|k: int| 0 <= k < i as int ==> sample_bank@[k] is None,
                forall|k: int| 0 <= k < i as int ==> pad_bpm@[k] is None,
                forall|k: int| 0 <= k < i as int ==> pad_gain@[k] == crate::PAD_GAIN_MAX,
                forall|k: int|
                    0 <= k < i as int ==> (#[trigger] pad_eq@[k]) == neutral_eq && pad_eq@[k].wf()
                        && pad_eq@[k].unity_gains(),
                forall|k: int| 0 <= k < i as int ==> pad_loop_start@[k] == 0usize,
                forall|k: int| 0 <= k < i as int ==> pad_loop_end@[k] is None,
                forall|k: int| 0 <= k < i as int ==> pad_playhead@[k] is None,
                neutral_eq.wf() && neutral_eq.unity_gains(),
            decreases crate::NUM_SAMPLES - i,
        {
            sample_bank.push(None);
            pad_bpm.push(None);
            pad_gain.push(crate::PAD_GAIN_MAX);
            pad_eq.push(neutral_eq);
            pad_loop_start.push(0);
            pad_loop_end.push(None);
            pad_playhead.push(None);
            i = i + 1;
        }
        let mut voices: Vec<VoiceSlot> = Vec::new();
        let mut v: usize = 0;
        while v < crate::MAX_VOICES
            invariant
                v <= crate::MAX_VOICES,
                voices@.len() == v,
                forall|k: int| 0 <= k < v as int ==> voices@[k] == spec_stopped_slot(),
            decreases crate::MAX_VOICES - v,
        {
            voices.push(VoiceSlot::new(channels));
            v = v + 1;
        }
        let r = RtMixer {
            channels,
            volume: crate::VOLUME_MAX,
            speed: crate::AMP_UNIT,
            bpm_lock_enabled: false,
            key_lock_enabled: false,
            master_bpm: None,
            crossover: CrossoverCoeffs::identity(),
            sample_bank,
            pad_bpm,
            pad_gain,
            pad_eq,
            pad_loop_start,
            pad_loop_end,
            pad_playhead,
            voices,
        };
        r
    }

    /// Installs crossover sections designed for the output sample rate.
    /// Pads keep the EQ coefficients they already have; a later `SetPadEq`
    /// uses the new crossover.
    pub fn set_crossover(&mut self, crossover: CrossoverCoeffs)
        requires
            old(self).wf(),
            crossover.wf(),
        ensures
            final(self).wf(),
            final(self).model() == (MixerModel { crossover, ..old(self).model() }),
    {
        self.crossover = crossover;
        proof {
            assert(final(self).model() =~= (MixerModel { crossover, ..old(self).model() }));
        }
    }

    /// Gets the number of channels configured for this mixer.
    pub fn channels(&self) -> (r: usize)
        ensures
            r == self.model().channels,
    {
        self.channels
    }

    /// Loads a sample into the bank slot `id`.  An out-of-range id or a
    /// channel-count mismatch is silently ignored.
    pub fn load_sample(&mut self, id: usize, sample: SampleBuffer)
        requires
            old(self).wf(),
        ensures
            final(self).wf(),
            final(self).model() == spec_load_sample(
                old(self).model(),
                id as int,
                buf_model(sample),
            ),
    {
        let ghost m0 = self.model();
        let ghost b = buf_model(sample);
        if id >= crate::NUM_SAMPLES {
            proof {
                assert(final(self).model() =~= spec_load_sample(m0, id as int, b));
            }
            return;
        }
        if sample.channels != self.channels {
            proof {
                assert(final(self).model() =~= spec_load_sample(m0, id as int, b));
            }
            return;
        }
        self.sample_bank[id] = Some(sample);
        proof {
            assert(final(self).model().bank =~= m0.bank.update(id as int, Some(b)));
            assert(final(self).model() =~= spec_load_sample(m0, id as int, b));
        }
    }

    /// Starts playback of a loaded sample on the first inactive voice slot.
    /// An out-of-range id, a velocity outside `0 ..= VOLUME_MAX`, an empty
    /// slot, or a fully busy voice pool drops the trigger silently.
    #[verifier::loop_isolation(false)]
    pub fn play_sample(&mut self, id: usize, velocity: i64)
        requires
            old(self).wf(),
        ensures
            final(self).wf(),
            final(self).model() == spec_play_sample(old(self).model(), id as int, velocity as int),
    {
        let ghost m0 = self.model();
        if id >= crate::NUM_SAMPLES || velocity < 0 || velocity > crate::VOLUME_MAX {
            proof {
                assert(final(self).model() =~= spec_play_sample(m0, id as int, velocity as int));
            }
            return;
        }
        let loaded = match &self.sample_bank[id] {
            Some(_) => true,
            None => false,
        };
        if !loaded {
            proof {
                assert(final(self).model() =~= spec_play_sample(m0, id as int, velocity as int));
            }
            return;
        }
        let ratio = self.effective_ratio(id);
        let sample = match &self.sample_bank[id] {
            Some(s) => s.clone(),
            None => {
                proof {
                    assert(false);
                }
                SampleBuffer { channels: 1, samples: Vec::new() }
            },
        };
        let frames = sample.samples.len() / self.channels;
        proof {
            assert(buf_model(sample) == m0.bank[id as int]->0);
            assert(frames as int == buf_frames(m0.bank[id as int]->0));
        }
        let ls = self.pad_loop_start[id];
        let init = if ls <= frames {
            ls
        } else {
            frames
        };
        let mut v: usize = 0;
        while v < crate::MAX_VOICES
            invariant
                v <= crate::MAX_VOICES,
                self == old(self),
                self.wf(),
                self.model() == m0,
                forall|k: int| 0 <= k < v as int ==> m0.voices[k].active,
            decreases crate::MAX_VOICES - v,
        {
            if !self.voices[v].active {
                proof {
                    lemma_first_inactive(m0.voices, v as int);
                }
                let ghost started = started_voice_model(m0, id as int, velocity as int);
                self.voices[v].start(id, sample, init, velocity, ratio);
                proof {
                    assert(voice_model(self.voices@[v as int]) =~= started);
                    assert(final(self).model().voices =~= m0.voices.update(v as int, started));
                    assert(final(self).model() =~= spec_play_sample(
                        m0,
                        id as int,
                        velocity as int,
                    ));
                }
                return;
            }
            v = v + 1;
        }
        proof {
            lemma_all_active_no_inactive(m0.voices);
            assert(final(self).model() =~= spec_play_sample(m0, id as int, velocity as int));
        }
    }

    /// The effective tempo ratio of pad `id` (see `spec_effective_ratio`).
    pub fn effective_ratio(&self, id: usize) -> (r: i64)
        requires
            self.wf(),
            id < crate::NUM_SAMPLES,
        ensures
            r == spec_effective_ratio(self.model(), id as int),
            crate::SPEED_MIN <= r <= crate::SPEED_MAX,
    {
        let base: i64 = if self.bpm_lock_enabled {
            match (self.master_bpm, self.pad_bpm[id]) {
                (Some(mb), Some(pb)) => {
                    let num: u64 = (mb as u64) * (crate::AMP_UNIT as u64);
                    ((num / (pb as u64)) as i64)
                },
                _ => self.speed,
            }
        } else {
            self.speed
        };
        proof {
            if self.bpm_lock_enabled && self.master_bpm is Some && self.pad_bpm@[id as int]
                is Some {
                vstd::arithmetic::div_mod::lemma_div_pos_is_pos(
                    self.master_bpm->0 * (crate::AMP_UNIT as int),
                    self.pad_bpm@[id as int]->0 as int,
                );
            }
        }
        clip_i64(base, crate::SPEED_MIN, crate::SPEED_MAX)
    }

    /// Stops all voices playing sample `id`; an out-of-range id does
    /// nothing.
    #[verifier::loop_isolation(false)]
    pub fn stop_sample(&mut self, id: usize)
        requires
            old(self).wf(),
        ensures
            final(self).wf(),
            final(self).model() == spec_stop_sample(old(self).model(), id as int),
    {
        let ghost m0 = self.model();
        if id >= crate::NUM_SAMPLES {
            proof {
                assert(final(self).model() =~= spec_stop_sample(m0, id as int));
            }
            return;
        }
        let mut v: usize = 0;
        while v < crate::MAX_VOICES
            invariant
                v <= crate::MAX_VOICES,
                id < crate::NUM_SAMPLES,
                wf_model(m0),
                self.wf(),
                self.model() == (MixerModel {
                    voices: Seq::new(
                        m0.voices.len(),
                        |k: int|
                            if k < v as int && m0.voices[k].active && m0.voices[k].sample_id
                                == id as int {
                                stopped_voice_model()
                            } else {
                                m0.voices[k]
                            },
                    ),
                    ..m0
                }),
            decreases crate::MAX_VOICES - v,
        {
            let ghost m_before = self.model();
            let ghost vprev = self.voices@;
            proof {
                assert(m_before.voices =~= vprev.map_values(|x: VoiceSlot| voice_model(x)));
            }
            if self.voices[v].is_playing_sample(id) {
                self.voices[v].stop();
                proof {
                    assert(voice_model(spec_stopped_slot()) =~= stopped_voice_model());
                    assert(self.voices@ =~= vprev.update(v as int, spec_stopped_slot()));
                }
            }
            proof {
                assert forall|k: int| 0 <= k < m0.voices.len() implies self.model().voices[k]
                    == (if k < (v + 1) as int && m0.voices[k].active && m0.voices[k].sample_id
                        == id as int {
                        stopped_voice_model()
                    } else {
                        m0.voices[k]
                    }) by {
                    assert(self.model().voices[k] == voice_model(self.voices@[k]));
                    assert(m_before.voices[k] == voice_model(vprev[k]));
                }
                assert(self.model().voices =~= Seq::new(
                    m0.voices.len(),
                    |k: int|
                        if k < (v + 1) as int && m0.voices[k].active && m0.voices[k].sample_id
                            == id as int {
                            stopped_voice_model()
                        } else {
                            m0.voices[k]
                        },
                ));
                assert(self.model() =~= (MixerModel {
                    voices: Seq::new(
                        m0.voices.len(),
                        |k: int|
                            if k < (v + 1) as int && m0.voices[k].active && m0.voices[k].sample_id
                                == id as int {
                                stopped_voice_model()
                            } else {
                                m0.voices[k]
                            },
                    ),
                    ..m0
                }));
            }
            v = v + 1;
        }
        proof {
            assert(final(self).model().voices =~= spec_stop_sample(m0, id as int).voices);
            assert(final(self).model() =~= spec_stop_sample(m0, id as int));
        }
    }

    /// Stops all active voices.
    #[verifier::loop_isolation(false)]
    pub fn stop_all(&mut self)
        requires
            old(self).wf(),
        ensures
            final(self).wf(),
            final(self).model() == spec_stop_all(old(self).model()),
    {
        let ghost m0 = self.model();
        let mut v: usize = 0;
        while v < crate::MAX_VOICES
            invariant
                v <= crate::MAX_VOICES,
                wf_model(m0),
                self.wf(),
                self.model() == (MixerModel {
                    voices: Seq::new(
                        m0.voices.len(),
                        |k: int|
                            if k < v as int {
                                stopped_voice_model()
                            } else {
                                m0.voices[k]
                            },
                    ),
                    ..m0
                }),
            decreases crate::MAX_VOICES - v,
        {
            let ghost m_before = self.model();
            let ghost vprev = self.voices@;
            proof {
                assert(m_before.voices =~= vprev.map_values(|x: VoiceSlot| voice_model(x)));
            }
            self.voices[v].stop();
            proof {
                assert(voice_model(spec_stopped_slot()) =~= stopped_voice_model());
                assert(self.voices@ =~= vprev.update(v as int, spec_stopped_slot()));
                assert forall|k: int| 0 <= k < m0.voices.len() implies self.model().voices[k]
                    == (if k < (v + 1) as int {
                        stopped_voice_model()
                    } else {
                        m0.voices[k]
                    }) by {
                    assert(self.model().voices[k] == voice_model(self.voices@[k]));
                    assert(m_before.voices[k] == voice_model(vprev[k]));
                }
                assert(self.model().voices =~= Seq::new(
                    m0.voices.len(),
                    |k: int|
                        if k < (v + 1) as int {
                            stopped_voice_model()
                        } else {
                            m0.voices[k]
                        },
                ));
                assert(self.model() =~= (MixerModel {
                    voices: Seq::new(
                        m0.voices.len(),
                        |k: int|
                            if k < (v + 1) as int {
                                stopped_voice_model()
                            } else {
                                m0.voices[k]
                            },
                    ),
                    ..m0
                }));
            }
            v = v + 1;
        }
        proof {
            assert(final(self).model().voices =~= spec_stop_all(m0).voices);
            assert(final(self).model() =~= spec_stop_all(m0));
        }
    }

    /// Unloads sample `id`: stops its voices, then clears the bank slot.
    pub fn unload_sample(&mut self, id: usize)
        requires
            old(self).wf(),
        ensures
            final(self).wf(),
            final(self).model() == spec_unload_sample(old(self).model(), id as int),
    {
        let ghost m0 = self.model();
        if id >= crate::NUM_SAMPLES {
            proof {
                assert(final(self).model() =~= spec_unload_sample(m0, id as int));
            }
            return;
        }
        self.stop_sample(id);
        self.sample_bank[id] = None;
        proof {
            assert(final(self).model().bank =~= spec_stop_sample(m0, id as int).bank.update(
                id as int,
                None,
            ));
            assert(final(self).model() =~= spec_unload_sample(m0, id as int));
        }
    }

    /// Sets the global volume; out-of-range values are silently dropped.
    pub fn set_volume(&mut self, volume: i64)
        requires
            old(self).wf(),
        ensures
            final(self).wf(),
            final(self).model() == spec_set_volume(old(self).model(), volume as int),
    {
        let ghost m0 = self.model();
        if 0 <= volume && volume <= crate::VOLUME_MAX {
            self.volume = volume;
        }
        proof {
            assert(final(self).model() =~= spec_set_volume(m0, volume as int));
        }
    }

    /// Sets the global speed; out-of-range values are silently dropped.
    pub fn set_speed(&mut self, speed: i64)
        requires
            old(self).wf(),
        ensures
            final(self).wf(),
            final(self).model() == spec_set_speed(old(self).model(), speed as int),
    {
        let ghost m0 = self.model();
        if crate::SPEED_MIN <= speed && speed <= crate::SPEED_MAX {
            self.speed = speed;
        }
        proof {
            assert(final(self).model() =~= spec_set_speed(m0, speed as int));
        }
    }

    /// Sets the master BPM; non-positive or oversized values are dropped.
    pub fn set_master_bpm(&mut self, bpm: i64)
        requires
            old(self).wf(),
        ensures
            final(self).wf(),
            final(self).model() == spec_set_master_bpm(old(self).model(), bpm as int),
    {
        let ghost m0 = self.model();
        if 0 < bpm && bpm <= BPM_MAX {
            self.master_bpm = Some(bpm);
        }
        proof {
            assert(final(self).model() =~= spec_set_master_bpm(m0, bpm as int));
        }
    }

    /// Enables or disables BPM lock; disabling clears the master BPM.
    pub fn set_bpm_lock(&mut self, enabled: bool)
        requires
            old(self).wf(),
        ensures
            final(self).wf(),
            final(self).model() == spec_set_bpm_lock(old(self).model(), enabled),
    {
        let ghost m0 = self.model();
        self.bpm_lock_enabled = enabled;
        if !enabled {
            self.master_bpm = None;
        }
        proof {
            assert(final(self).model() =~= spec_set_bpm_lock(m0, enabled));
        }
    }

    /// Enables or disables key lock.
    pub fn set_key_lock(&mut self, enabled: bool)
        requires
            old(self).wf(),
        ensures
            final(self).wf(),
            final(self).model() == spec_set_key_lock(old(self).model(), enabled),
    {
        let ghost m0 = self.model();
        self.key_lock_enabled = enabled;
        proof {
            assert(final(self).model() =~= spec_set_key_lock(m0, enabled));
        }
    }

    /// Sets or clears the BPM of one pad; invalid values are dropped.
    pub fn set_pad_bpm(&mut self, id: usize, bpm: Option<i64>)
        requires
            old(self).wf(),
        ensures
            final(self).wf(),
            final(self).model() == spec_set_pad_bpm(
                old(self).model(),
                id as int,
                match bpm {
                    Some(b) => Some(b as int),
                    None => None,
                },
            ),
    {
        let ghost m0 = self.model();
        let ghost bm: Option<int> = match bpm {
            Some(b) => Some(b as int),
            None => None,
        };
        let valid = match bpm {
            Some(b) => 0 < b && b <= BPM_MAX,
            None => true,
        };
        if id < crate::NUM_SAMPLES && valid {
            self.pad_bpm[id] = bpm;
            proof {
                assert(final(self).model().pad_bpm =~= m0.pad_bpm.update(id as int, bm));
                assert(final(self).model() =~= spec_set_pad_bpm(m0, id as int, bm));
            }
        } else {
            proof {
                assert(final(self).model() =~= spec_set_pad_bpm(m0, id as int, bm));
            }
        }
    }

    /// Sets the gain of one pad; invalid values are dropped.
    pub fn set_pad_gain(&mut self, id: usize, gain: i64)
        requires
            old(self).wf(),
        ensures
            final(self).wf(),
            final(self).model() == spec_set_pad_gain(old(self).model(), id as int, gain as int),
    {
        let ghost m0 = self.model();
        if id < crate::NUM_SAMPLES && 0 <= gain && gain <= crate::PAD_GAIN_MAX {
            self.pad_gain[id] = gain;
            proof {
                assert(final(self).model().pad_gain =~= m0.pad_gain.update(id as int, gain as int));
                assert(final(self).model() =~= spec_set_pad_gain(m0, id as int, gain as int));
            }
        } else {
            proof {
                assert(final(self).model() =~= spec_set_pad_gain(m0, id as int, gain as int));
            }
        }
    }

    /// Sets the 3-band EQ of one pad from decibel values in thousandths;
    /// values outside `PAD_EQ_DB_MIN ..= PAD_EQ_DB_MAX` are dropped.
    pub fn set_pad_eq(&mut self, id: usize, low_db: i64, mid_db: i64, high_db: i64)
        requires
            old(self).wf(),
        ensures
            final(self).wf(),
            final(self).model() == spec_set_pad_eq(
                old(self).model(),
                id as int,
                low_db as int,
                mid_db as int,
                high_db as int,
            ),
    {
        let ghost m0 = self.model();
        let in_range = crate::PAD_EQ_DB_MIN <= low_db && low_db <= crate::PAD_EQ_DB_MAX
            && crate::PAD_EQ_DB_MIN <= mid_db && mid_db <= crate::PAD_EQ_DB_MAX
            && crate::PAD_EQ_DB_MIN <= high_db && high_db <= crate::PAD_EQ_DB_MAX;
        if id < crate::NUM_SAMPLES && in_range {
            let coeffs = coeffs_for_eq3(self.crossover, low_db, mid_db, high_db);
            self.pad_eq[id] = coeffs;
            proof {
                assert(final(self).model().pad_eq =~= spec_set_pad_eq(
                    m0,
                    id as int,
                    low_db as int,
                    mid_db as int,
                    high_db as int,
                ).pad_eq);
                assert(final(self).model() =~= spec_set_pad_eq(
                    m0,
                    id as int,
                    low_db as int,
                    mid_db as int,
                    high_db as int,
                ));
            }
        } else {
            proof {
                assert(final(self).model() =~= spec_set_pad_eq(
                    m0,
                    id as int,
                    low_db as int,
                    mid_db as int,
                    high_db as int,
                ));
            }
        }
    }

    /// Sets the loop region of one pad as a half-open frame range; the
    /// render loop clamps it into the playing sample.
    pub fn set_pad_loop_region(&mut self, id: usize, start_frame: usize, end_frame: Option<usize>)
        requires
            old(self).wf(),
        ensures
            final(self).wf(),
            final(self).model() == spec_set_pad_loop_region(
                old(self).model(),
                id as int,
                start_frame as int,
                match end_frame {
                    Some(e) => Some(e as int),
                    None => None,
                },
            ),
    {
        let ghost m0 = self.model();
        let ghost em: Option<int> = match end_frame {
            Some(e) => Some(e as int),
            None => None,
        };
        if id < crate::NUM_SAMPLES {
            self.pad_loop_start[id] = start_frame;
            self.pad_loop_end[id] = end_frame;
            proof {
                assert(final(self).model().pad_loop_start =~= m0.pad_loop_start.update(
                    id as int,
                    start_frame as int,
                ));
                assert(final(self).model().pad_loop_end =~= m0.pad_loop_end.update(id as int, em));
                assert(final(self).model() =~= spec_set_pad_loop_region(
                    m0,
                    id as int,
                    start_frame as int,
                    em,
                ));
            }
        } else {
            proof {
                assert(final(self).model() =~= spec_set_pad_loop_region(
                    m0,
                    id as int,
                    start_frame as int,
                    em,
                ));
            }
        }
    }

    /// Applies one control message to the mixer state.  This is the whole
    /// effect a message has on the audio thread apart from `Ping`, which is
    /// answered on the audio ring by the callback.
    pub fn apply_message(&mut self, msg: ControlMessage)
        requires
            old(self).wf(),
        ensures
            final(self).wf(),
            final(self).model() == spec_apply(old(self).model(), msg),
    {
        let ghost m0 = self.model();
        let ghost msg0 = msg;
        match msg {
            ControlMessage::Ping => {
                proof {
                    assert(final(self).model() =~= spec_apply(m0, msg0));
                }
            },
            ControlMessage::SetVolume(v) => self.set_volume(v),
            ControlMessage::SetSpeed(s) => self.set_speed(s),
            ControlMessage::LoadSample { id, sample } => self.load_sample(id, sample),
            ControlMessage::PlaySample { id, velocity } => self.play_sample(id, velocity),
            ControlMessage::StopSample { id } => self.stop_sample(id),
            ControlMessage::StopAll => self.stop_all(),
            ControlMessage::UnloadSample { id } => self.unload_sample(id),
            ControlMessage::SetMasterBpm(b) => self.set_master_bpm(b),
            ControlMessage::SetBpmLock(e) => self.set_bpm_lock(e),
            ControlMessage::SetKeyLock(e) => self.set_key_lock(e),
            ControlMessage::SetPadBpm { id, bpm } => self.set_pad_bpm(id, bpm),
            ControlMessage::SetPadGain { id, gain } => self.set_pad_gain(id, gain),
            ControlMessage::SetPadEq { id, low_db, mid_db, high_db } => self.set_pad_eq(
                id,
                low_db,
                mid_db,
                high_db,
            ),
            ControlMessage::SetPadLoopRegion { id, start_frame, end_frame } => self
                .set_pad_loop_region(id, start_frame, end_frame),
        }
    }

    /// Applies a whole batch of control messages in order, oldest first.
    /// Every message in the batch is applied exactly once.
    #[verifier::loop_isolation(false)]
    pub fn apply_all(&mut self, msgs: Vec<ControlMessage>)
        requires
            old(self).wf(),
        ensures
            final(self).wf(),
            final(self).model() == spec_apply_all(old(self).model(), msgs@),
    {
        let ghost all = msgs@;
        let ghost m0 = self.model();
        let mut i: usize = 0;
        let mut rest = msgs;
        while rest.len() > 0
            invariant
                self.wf(),
                spec_apply_all(m0, all) == spec_apply_all(self.model(), rest@),
            decreases rest@.len(),
        {
            let ghost prev = rest@;
            let msg = rest.remove(0);
            proof {
                assert(rest@ =~= prev.drop_first());
            }
            self.apply_message(msg);
        }
        proof {
            assert(rest@.len() == 0);
        }
    }
}

/// Every loaded bank slot matches the engine's channel count: this holds in
/// every well-formed mixer state, and every mixer operation preserves
/// well-formedness.
pub proof fn lemma_bank_channels_match(m: MixerModel, id: int)
    requires
        wf_model(m),
        0 <= id < crate::NUM_SAMPLES,
        m.bank[id] is Some,
    ensures
        m.bank[id]->0.channels == m.channels,
{
}

/// A load followed by a play of the same pad from one control thread starts
/// a voice for that pad, holding exactly the loaded buffer, provided the
/// trigger is valid and a voice slot is free.
pub proof fn lemma_load_then_play_starts_voice(m: MixerModel, id: int, b: BufModel, velocity: int)
    requires
        wf_model(m),
        0 <= id < crate::NUM_SAMPLES,
        0 <= velocity <= crate::VOLUME_MAX,
        b.channels == m.channels,
        first_inactive_from(m.voices, 0) is Some,
    ensures
        ({
            let m2 = spec_play_sample(spec_load_sample(m, id, b), id, velocity);
            let v = first_inactive_from(m.voices, 0)->0;
            &&& 0 <= v < crate::MAX_VOICES
            &&& m2.voices[v].active
            &&& m2.voices[v].sample_id == id
            &&& m2.voices[v].sample == Some(b)
            &&& m2.voices[v].volume == velocity
        }),
{
    let m1 = spec_load_sample(m, id, b);
    let v = first_inactive_from(m.voices, 0)->0;
    lemma_first_inactive_in_range(m.voices, 0);
    assert(m1.voices == m.voices);
}

/// Voice allocation is deterministic and non-preemptive: a valid trigger
/// starts exactly the first inactive voice slot and leaves every other slot
/// untouched; when every slot is active the trigger is dropped and the
/// state does not change at all.
pub proof fn lemma_voice_allocation(m: MixerModel, id: int, velocity: int)
    requires
        wf_model(m),
        0 <= id < crate::NUM_SAMPLES,
        0 <= velocity <= crate::VOLUME_MAX,
        m.bank[id] is Some,
    ensures
        (forall|v: int| 0 <= v < crate::MAX_VOICES ==> (#[trigger] m.voices[v]).active)
            ==> spec_play_sample(m, id, velocity) == m,
        (first_inactive_from(m.voices, 0) matches Some(v) ==> spec_play_sample(m, id, velocity)
            == MixerModel { voices: m.voices.update(v, started_voice_model(m, id, velocity)), ..m }
            && !m.voices[v].active && (forall|k: int|
            0 <= k < crate::MAX_VOICES && k != v ==> #[trigger] spec_play_sample(
                m,
                id,
                velocity,
            ).voices[k] == m.voices[k])),
{
    if forall|v: int| 0 <= v < crate::MAX_VOICES ==> (#[trigger] m.voices[v]).active {
        lemma_all_active_from_pub(m.voices, 0);
    }
    if first_inactive_from(m.voices, 0) is Some {
        lemma_first_inactive_in_range(m.voices, 0);
    }
}

/// No voice of the model is paused.  This holds of a fresh mixer and is
/// preserved by every control message and by rendering: nothing on the
/// control ring pauses a voice, so in every state the message API can
/// reach, every active voice renders.
pub open spec fn no_voice_paused(m: MixerModel) -> bool {
    forall|v: int| 0 <= v < m.voices.len() ==> !(#[trigger] m.voices[v]).paused
}

/// No control message pauses a voice: a started voice starts unpaused, a
/// stopped voice is unpaused, and every other message leaves the voices
/// alone.
pub proof fn lemma_apply_keeps_voices_unpaused(m: MixerModel, msg: ControlMessage)
    requires
        no_voice_paused(m),
    ensures
        no_voice_paused(spec_apply(m, msg)),
{
    let m2 = spec_apply(m, msg);
    assert forall|v: int| 0 <= v < m2.voices.len() implies !(#[trigger] m2.voices[v]).paused by {
        match msg {
            ControlMessage::PlaySample { id, velocity } => {
                if first_inactive_from(m.voices, 0) is Some {
                    lemma_first_inactive_in_range(m.voices, 0);
                }
                assert(!m.voices[v].paused);
            },
            _ => {
                assert(!m.voices[v].paused);
            },
        }
    }
}

/// The first inactive slot returned by the search is a real, inactive slot.
pub proof fn lemma_first_inactive_in_range(vs: Seq<VoiceModel>, i: int)
    requires
        0 <= i,
        first_inactive_from(vs, i) is Some,
    ensures
        i <= first_inactive_from(vs, i)->0 < vs.len(),
        !vs[first_inactive_from(vs, i)->0].active,
    decreases vs.len() - i,
{
    if i < vs.len() && vs[i].active {
        lemma_first_inactive_in_range(vs, i + 1);
    }
}

proof fn lemma_all_active_from_pub(vs: Seq<VoiceModel>, i: int)
    requires
        0 <= i,
        forall|k: int| 0 <= k < vs.len() ==> (#[trigger] vs[k]).active,
    ensures
        first_inactive_from(vs, i) is None,
    decreases vs.len() - i,
{
    if i < vs.len() {
        lemma_all_active_from_pub(vs, i + 1);
    }
}

/// If all voices before `v` are active and voice `v` is inactive, then `v`
/// is the first inactive voice.
proof fn lemma_first_inactive(vs: Seq<VoiceModel>, v: int)
    requires
        0 <= v < vs.len(),
        !vs[v].active,
        forall|k: int| 0 <= k < v ==> (#[trigger] vs[k]).active,
    ensures
        first_inactive_from(vs, 0) == Some(v),
    decreases vs.len(),
{
    lemma_first_inactive_from(vs, 0, v);
}

proof fn lemma_first_inactive_from(vs: Seq<VoiceModel>, i: int, v: int)
    requires
        0 <= i <= v < vs.len(),
        !vs[v].active,
        forall|k: int| i <= k < v ==> (#[trigger] vs[k]).active,
    ensures
        first_inactive_from(vs, i) == Some(v),
    decreases v - i,
{
    if i < v {
        lemma_first_inactive_from(vs, i + 1, v);
    }
}

/// If every voice is active, there is no inactive voice.
proof fn lemma_all_active_no_inactive(vs: Seq<VoiceModel>)
    requires
        forall|k: int| 0 <= k < vs.len() ==> (#[trigger] vs[k]).active,
    ensures
        first_inactive_from(vs, 0) is None,
{
    lemma_all_active_from(vs, 0);
}

proof fn lemma_all_active_from(vs: Seq<VoiceModel>, i: int)
    requires
        0 <= i,
        forall|k: int| 0 <= k < vs.len() ==> (#[trigger] vs[k]).active,
    ensures
        first_inactive_from(vs, i) is None,
    decreases vs.len() - i,
{
    if i < vs.len() {
        lemma_all_active_from(vs, i + 1);
    }
}

} // verus!
