use looper_audio::cache::choose_cache_candidate;
use looper_audio::eq3::{
    db_to_gain, BiquadCoeffs, CrossoverCoeffs, Eq3Coeffs, Eq3State, COEFF_ONE,
};
use looper_audio::loader::{decode_progress_per_mille, resample_output_len};
use looper_audio::messages::SampleBuffer;
use looper_audio::mixer::RtMixer;
use looper_audio::progress::{LoadProgressStage, ProgressReporter};
use looper_audio::waveform::waveform_render_data;
use looper_audio::{AMP_UNIT, MAX_VOICES, NUM_SAMPLES};

fn const_sample(channels: usize, frames: usize, value_micro: i32) -> SampleBuffer {
    SampleBuffer { channels, samples: vec![value_micro; channels * frames] }
}

#[test]
fn test_render_with_nothing_loaded() {
    // After starting a stereo engine, a 100-frame render is exact silence
    // and every peak is zero.
    let mut mixer = RtMixer::new(2);
    let mut out = vec![7i64; 200];
    let mut peaks = vec![9i64; NUM_SAMPLES];
    mixer.render(&mut out, &mut peaks);
    assert!(out.iter().all(|&s| s == 0));
    assert!(peaks.iter().all(|&p| p == 0));
}

#[test]
fn test_single_mono_pad_looped() {
    // A five-frame mono buffer of 0.5 looped over twenty frames: every
    // output sample is exactly 0.5 and the pad peak is 0.5.
    let mut mixer = RtMixer::new(1);
    mixer.load_sample(0, const_sample(1, 5, 500_000));
    mixer.play_sample(0, AMP_UNIT);
    let mut out = vec![0i64; 20];
    let mut peaks = vec![0i64; NUM_SAMPLES];
    mixer.render(&mut out, &mut peaks);
    assert!(out.iter().all(|&s| s == 500_000));
    assert_eq!(peaks[0], 500_000);
}

#[test]
fn test_two_voices_summed() {
    // Two constant stereo pads of 0.3 and 0.2 sum to 0.5 everywhere; the
    // per-pad peaks report each voice alone.
    let mut mixer = RtMixer::new(2);
    mixer.load_sample(0, const_sample(2, 10, 300_000));
    mixer.load_sample(1, const_sample(2, 10, 200_000));
    mixer.play_sample(0, AMP_UNIT);
    mixer.play_sample(1, AMP_UNIT);
    let mut out = vec![0i64; 20];
    let mut peaks = vec![0i64; NUM_SAMPLES];
    mixer.render(&mut out, &mut peaks);
    assert!(out.iter().all(|&s| s == 500_000));
    assert_eq!(peaks[0], 300_000);
    assert_eq!(peaks[1], 200_000);
}

#[test]
fn test_loop_region_confinement() {
    // A twenty-frame pad with loop region [2, 5): over twenty one-frame
    // renders the playhead stays inside the window.
    let mut mixer = RtMixer::new(1);
    mixer.load_sample(0, const_sample(1, 20, 400_000));
    mixer.set_pad_loop_region(0, 2, Some(5));
    mixer.play_sample(0, AMP_UNIT);
    for _ in 0..20 {
        let mut out = vec![0i64; 1];
        let mut peaks = vec![0i64; NUM_SAMPLES];
        mixer.render(&mut out, &mut peaks);
        let playhead = mixer.pad_playhead[0].expect("voice rendered");
        assert!((2..5).contains(&playhead), "playhead {playhead} left [2, 5)");
    }
}

#[test]
fn test_bpm_lock_ratio() {
    // master 120 BPM, pad 90 BPM, lock on, unity speed: the effective
    // tempo ratio is 120/90, clamped into the speed range.
    let mut mixer = RtMixer::new(1);
    mixer.set_master_bpm(120_000);
    mixer.set_pad_bpm(0, Some(90_000));
    mixer.set_bpm_lock(true);
    mixer.set_speed(AMP_UNIT);
    assert_eq!(mixer.effective_ratio(0), 1_333_333);
}

#[test]
fn test_voice_cap_thirty_three_triggers() {
    // The same material on 33 distinct pads, each triggered once: exactly
    // 32 voices run and the 33rd trigger is dropped without an error.
    let mut mixer = RtMixer::new(1);
    for id in 0..33 {
        mixer.load_sample(id, const_sample(1, 10, 500_000));
        mixer.play_sample(id, AMP_UNIT);
    }
    assert_eq!(mixer.voices.iter().filter(|v| v.active).count(), MAX_VOICES);
    // The dropped trigger is the 33rd: no voice plays pad 32.
    assert!(mixer.voices.iter().all(|v| !v.active || v.sample_id != 32));
}

#[test]
fn test_unload_during_play() {
    // load -> play -> unload: the next render is silent, and the pad can
    // be loaded and played again without lingering state.
    let mut mixer = RtMixer::new(2);
    mixer.load_sample(0, const_sample(2, 8, 500_000));
    mixer.play_sample(0, AMP_UNIT);
    mixer.unload_sample(0);

    let mut out = vec![1i64; 16];
    let mut peaks = vec![0i64; NUM_SAMPLES];
    mixer.render(&mut out, &mut peaks);
    assert!(out.iter().all(|&s| s == 0));
    assert!(peaks.iter().all(|&p| p == 0));

    mixer.load_sample(0, const_sample(2, 8, 250_000));
    mixer.play_sample(0, AMP_UNIT);
    mixer.render(&mut out, &mut peaks);
    assert!(out.iter().all(|&s| s == 250_000));
    assert_eq!(peaks[0], 250_000);
}

#[test]
fn test_stop_all_then_render_is_silence() {
    let mut mixer = RtMixer::new(2);
    mixer.load_sample(0, const_sample(2, 4, 500_000));
    mixer.play_sample(0, AMP_UNIT);
    mixer.play_sample(0, 700_000);
    mixer.stop_all();
    let mut out = vec![5i64; 12];
    let mut peaks = vec![5i64; NUM_SAMPLES];
    mixer.render(&mut out, &mut peaks);
    assert!(out.iter().all(|&s| s == 0));
    assert!(peaks.iter().all(|&p| p == 0));
}

#[test]
fn test_unity_eq_passes_signal_through() {
    // At 0 dB on every band the EQ is the identity sample-for-sample,
    // whatever the crossover sections are.
    let crossover = CrossoverCoeffs {
        lp1: BiquadCoeffs { b0: COEFF_ONE / 3, b1: COEFF_ONE / 5, b2: -COEFF_ONE / 7, a1: COEFF_ONE / 2, a2: -COEFF_ONE / 4 },
        lp2: BiquadCoeffs { b0: COEFF_ONE / 2, b1: 12_345, b2: -54_321, a1: 98_765, a2: -13_579 },
        hp1: BiquadCoeffs { b0: COEFF_ONE, b1: -COEFF_ONE, b2: 0, a1: 111_111, a2: -22_222 },
        hp2: BiquadCoeffs { b0: COEFF_ONE / 4, b1: 0, b2: COEFF_ONE / 8, a1: -7_777, a2: 3_333 },
    };
    let eq = looper_audio::eq3::coeffs_for_eq3(crossover, 0, 0, 0);
    let mut state = Eq3State::new();
    let inputs = [0i64, 500_000, -500_000, 1_000_000, -1_000_000, 123_456, -654_321];
    for &x in &inputs {
        assert_eq!(eq.process(&mut state, x), x);
    }
}

#[test]
fn test_eq_mute_and_boost_gains() {
    // -12 dB is a true mute; +12 dB is the largest gain; 0 dB is unity.
    assert_eq!(db_to_gain(0), 1_000_000);
    assert_eq!(db_to_gain(-12_000), 0);
    assert_eq!(db_to_gain(-13_000), 0);
    assert_eq!(db_to_gain(12_000), 3_981_072);
    assert_eq!(db_to_gain(99_000), 3_981_072);
    assert_eq!(db_to_gain(6_000), 1_995_262);
    // Halfway between 0 dB and 1 dB, interpolated linearly.
    assert_eq!(db_to_gain(500), 1_000_000 + (1_122_018 - 1_000_000) * 500 / 1000);
}

#[test]
fn test_eq_identity_coeffs_are_neutral() {
    let eq = Eq3Coeffs::identity();
    let mut state = Eq3State::default();
    for x in [-250_000i64, 0, 250_000, 999_999] {
        assert_eq!(eq.process(&mut state, x), x);
    }
}

#[test]
fn test_progress_stage_ranges() {
    // Without resampling its slice collapses to a point; with resampling
    // the stages split the first quarter before analysis takes over.
    assert_eq!(LoadProgressStage::Decoding.range(false), (0, 100));
    assert_eq!(LoadProgressStage::Resampling.range(false), (100, 100));
    assert_eq!(LoadProgressStage::ChannelMapping.range(false), (100, 150));
    assert_eq!(LoadProgressStage::Analyzing.range(false), (150, 950));
    assert_eq!(LoadProgressStage::Publishing.range(false), (950, 1000));
    assert_eq!(LoadProgressStage::Resampling.range(true), (100, 200));
    assert_eq!(LoadProgressStage::ChannelMapping.range(true), (200, 250));
}

#[test]
fn test_progress_stage_labels() {
    assert_eq!(LoadProgressStage::Decoding.stage_label(), "Decoding…");
    assert_eq!(LoadProgressStage::Resampling.stage_label(), "Resampling…");
    assert_eq!(LoadProgressStage::ChannelMapping.stage_label(), "Mapping channels…");
    assert_eq!(LoadProgressStage::Analyzing.stage_label(), "Analyzing…");
    assert_eq!(LoadProgressStage::Publishing.stage_label(), "Publishing…");
}

#[test]
fn test_progress_reporter_rate_limit() {
    let mut rep = ProgressReporter::new(4);

    // The first emission always passes and maps the local progress into the
    // stage's slice of the whole load.
    let u = rep.emit(LoadProgressStage::Decoding, 500, false, false, 0).unwrap();
    assert_eq!(u.id, 4);
    assert_eq!(u.percent_per_mille, 50);
    assert_eq!(u.stage, LoadProgressStage::Decoding);

    // Within the rate-limit window an unforced emission is suppressed, a
    // forced one is not.
    assert!(rep.emit(LoadProgressStage::Decoding, 900, false, false, 50).is_none());
    let forced = rep.emit(LoadProgressStage::Decoding, 1000, false, true, 50).unwrap();
    assert_eq!(forced.percent_per_mille, 100);

    // After the window the next emission passes again.
    let later = rep.emit(LoadProgressStage::Publishing, 0, false, false, 200).unwrap();
    assert_eq!(later.percent_per_mille, 950);
}

#[test]
fn test_progress_reporter_pins_resampling_answer() {
    // The first emission fixes whether resampling is required; later calls
    // cannot change the weighting.
    let mut rep = ProgressReporter::new(0);
    let first = rep.emit(LoadProgressStage::Decoding, 0, false, true, 0).unwrap();
    assert_eq!(first.percent_per_mille, 0);
    let second = rep.emit(LoadProgressStage::ChannelMapping, 0, true, true, 0).unwrap();
    // Weighting still follows "no resampling": the mapping stage starts at
    // 100, not 200.
    assert_eq!(second.percent_per_mille, 100);
}

#[test]
fn test_progress_local_clamped() {
    let mut rep = ProgressReporter::new(0);
    let u = rep.emit(LoadProgressStage::Decoding, 5000, false, true, 0).unwrap();
    assert_eq!(u.percent_per_mille, 100);
}

#[test]
fn test_resample_output_len() {
    // 1000 frames from 44.1 kHz to 48 kHz: ceil(1000 * 48000 / 44100).
    assert_eq!(resample_output_len(1000, 44_100, 48_000), 1089);
    // An exact ratio needs no rounding up.
    assert_eq!(resample_output_len(441, 44_100, 48_000), 480);
    // Identity rate keeps the length.
    assert_eq!(resample_output_len(12345, 48_000, 48_000), 12345);
}

#[test]
fn test_decode_progress() {
    assert_eq!(decode_progress_per_mille(0, 0), 0);
    assert_eq!(decode_progress_per_mille(10, 0), 0);
    assert_eq!(decode_progress_per_mille(0, 100), 0);
    assert_eq!(decode_progress_per_mille(50, 100), 500);
    assert_eq!(decode_progress_per_mille(100, 100), 1000);
    assert_eq!(decode_progress_per_mille(250, 100), 1000);
}

#[test]
fn test_cache_candidate_choice() {
    // The plain stem name is preferred.
    let mut taken = vec![false; 1001];
    assert_eq!(choose_cache_candidate(&taken), Some(0));

    // The first free numbered candidate follows.
    taken[0] = true;
    taken[1] = true;
    taken[2] = true;
    assert_eq!(choose_cache_candidate(&taken), Some(3));

    // With all 1001 candidates taken the import fails.
    let full = vec![true; 1001];
    assert_eq!(choose_cache_candidate(&full), None);
}

#[test]
fn test_pad_gain_scales_output() {
    let mut mixer = RtMixer::new(1);
    mixer.load_sample(0, const_sample(1, 4, 800_000));
    mixer.set_pad_gain(0, 500_000);
    mixer.play_sample(0, AMP_UNIT);
    let mut out = vec![0i64; 4];
    let mut peaks = vec![0i64; NUM_SAMPLES];
    mixer.render(&mut out, &mut peaks);
    assert!(out.iter().all(|&s| s == 400_000));
    assert_eq!(peaks[0], 400_000);
}

#[test]
fn test_global_volume_scales_output() {
    let mut mixer = RtMixer::new(1);
    mixer.load_sample(0, const_sample(1, 4, 800_000));
    mixer.set_volume(250_000);
    mixer.play_sample(0, AMP_UNIT);
    let mut out = vec![0i64; 4];
    let mut peaks = vec![0i64; NUM_SAMPLES];
    mixer.render(&mut out, &mut peaks);
    assert!(out.iter().all(|&s| s == 200_000));
}

#[test]
fn test_pad_eq_mute_silences_pad() {
    // All three bands at -12 dB are a true mute: the voice renders, the
    // playhead advances, but the output is exact silence.
    let mut mixer = RtMixer::new(1);
    mixer.load_sample(0, const_sample(1, 4, 800_000));
    mixer.set_pad_eq(0, -12_000, -12_000, -12_000);
    mixer.play_sample(0, AMP_UNIT);
    let mut out = vec![0i64; 4];
    let mut peaks = vec![0i64; NUM_SAMPLES];
    mixer.render(&mut out, &mut peaks);
    assert!(out.iter().all(|&s| s == 0));
    assert_eq!(peaks[0], 0);
    assert!(mixer.pad_playhead[0].is_some());
}

#[test]
fn test_waveform_raw_mode() {
    // A short range at 1000 Hz: fewer than two frames per column gives raw
    // per-frame values; stereo frames are averaged to mono.
    let sample = SampleBuffer {
        channels: 2,
        samples: vec![100_000, 300_000, -400_000, -200_000, 500_000, 500_000, 0, 0],
    };
    let w = waveform_render_data(&sample, 100, 0, 4_000, 1000).unwrap();
    assert!(w.raw);
    assert_eq!(w.values, vec![200_000, -300_000, 500_000, 0]);
    assert_eq!(w.xs_us, vec![0, 1_000, 2_000, 3_000]);
}

#[test]
fn test_waveform_envelope_mode() {
    // Eight mono frames over two columns: each column reports the min and
    // max of its four frames.
    let sample = SampleBuffer {
        channels: 1,
        samples: vec![1, -5, 3, 2, 10, 7, -8, 9],
    };
    let w = waveform_render_data(&sample, 2, 0, 8_000, 1000).unwrap();
    assert!(!w.raw);
    assert_eq!(w.mins, vec![-5, -8]);
    assert_eq!(w.maxs, vec![3, 10]);
    assert_eq!(w.xs_us, vec![0, 4_000]);
}

#[test]
fn test_waveform_empty_range() {
    let sample = SampleBuffer { channels: 1, samples: vec![1, 2, 3] };
    // An empty or inverted range yields nothing, as does a zero width.
    assert!(waveform_render_data(&sample, 10, 2_000, 2_000, 1000).is_none());
    assert!(waveform_render_data(&sample, 0, 0, 3_000, 1000).is_none());
    // A range past the end clamps to the sample and becomes empty.
    assert!(waveform_render_data(&sample, 10, 5_000, 9_000, 1000).is_none());
}

#[test]
fn test_identity_eq_keeps_state_quiescent() {
    // The neutral EQ not only passes the signal through: it also leaves the
    // quiescent filter state untouched, so it stays the identity forever.
    let eq = Eq3Coeffs::identity();
    let mut state = Eq3State::new();
    for x in [700_000i64, -700_000, 1, -1, 0, 999_999] {
        assert_eq!(eq.process(&mut state, x), x);
        assert_eq!(state, Eq3State::new());
    }
}
