use looper_audio::messages::SampleBuffer;
use looper_audio::mixer::RtMixer;
use looper_audio::{AMP_UNIT, MAX_VOICES, NUM_SAMPLES};

fn create_test_sample(channels: usize, frames: usize, value_micro: i32) -> SampleBuffer {
    SampleBuffer { channels, samples: vec![value_micro; channels * frames] }
}

fn zero_peaks() -> Vec<i64> {
    vec![0i64; NUM_SAMPLES]
}

#[test]
fn test_mixer_creation() {
    let mixer = RtMixer::new(2);
    assert_eq!(mixer.channels(), 2);
}

#[test]
fn test_load_sample() {
    let mut mixer = RtMixer::new(2);
    let sample = create_test_sample(2, 100, 500_000);

    mixer.load_sample(0, sample);

    // Sample should be loaded
    assert!(mixer.sample_bank[0].is_some());
}

#[test]
fn test_load_sample_invalid_id() {
    let mut mixer = RtMixer::new(2);
    let sample = create_test_sample(2, 100, 500_000);

    // Try to load at invalid ID
    mixer.load_sample(NUM_SAMPLES + 100, sample);

    // Should not panic, but sample should not be loaded
    assert!(mixer.sample_bank[NUM_SAMPLES - 1].is_none());
}

#[test]
fn test_load_sample_wrong_channels() {
    let mut mixer = RtMixer::new(2);
    let sample = create_test_sample(1, 100, 500_000);

    mixer.load_sample(0, sample);

    // Sample should not be loaded due to channel mismatch
    assert!(mixer.sample_bank[0].is_none());
}

#[test]
fn test_play_sample() {
    let mut mixer = RtMixer::new(2);
    let sample = create_test_sample(2, 100, 500_000);
    mixer.load_sample(0, sample);

    mixer.play_sample(0, 800_000);

    // One voice should be active
    assert!(mixer.voices.iter().any(|v| v.active));
}

#[test]
fn test_play_sample_not_loaded() {
    let mut mixer = RtMixer::new(2);

    // Try to play sample that wasn't loaded
    mixer.play_sample(0, 800_000);

    // No voice should be created
    assert!(mixer.voices.iter().all(|v| !v.active));
}

#[test]
fn test_play_sample_invalid_velocity() {
    let mut mixer = RtMixer::new(2);
    let sample = create_test_sample(2, 100, 500_000);
    mixer.load_sample(0, sample);

    // Try to play with invalid velocity
    mixer.play_sample(0, -1_000_000);
    mixer.play_sample(0, 2_000_000);

    // No voice should be created
    assert!(mixer.voices.iter().all(|v| !v.active));
}

#[test]
fn test_stop_all() {
    let mut mixer = RtMixer::new(2);
    let sample = create_test_sample(2, 100, 500_000);
    mixer.load_sample(0, sample);
    mixer.play_sample(0, 800_000);

    // Should have active voice
    assert!(mixer.voices.iter().any(|v| v.active));

    mixer.stop_all();

    // All voices should be stopped
    assert!(mixer.voices.iter().all(|v| !v.active));
}

#[test]
fn test_stop_sample() {
    let mut mixer = RtMixer::new(2);
    let sample1 = create_test_sample(2, 100, 500_000);
    let sample2 = create_test_sample(2, 100, 300_000);
    mixer.load_sample(0, sample1);
    mixer.load_sample(1, sample2);

    mixer.play_sample(0, 800_000);
    mixer.play_sample(1, 600_000);

    // Should have 2 active voices
    assert_eq!(mixer.voices.iter().filter(|v| v.active).count(), 2);

    mixer.stop_sample(0);

    // Only sample 1 should be stopped, sample 2 should still play
    assert!(mixer.voices.iter().any(|v| v.active && v.sample_id == 1));
    assert!(mixer.voices.iter().all(|v| !v.active || v.sample_id != 0));
}

#[test]
fn test_unload_sample() {
    let mut mixer = RtMixer::new(2);
    let sample = create_test_sample(2, 100, 500_000);
    mixer.load_sample(0, sample);
    mixer.play_sample(0, 800_000);

    // Should have loaded sample and active voice
    assert!(mixer.sample_bank[0].is_some());
    assert!(mixer.voices.iter().any(|v| v.active));

    mixer.unload_sample(0);

    // Sample should be unloaded and voice stopped
    assert!(mixer.sample_bank[0].is_none());
    assert!(mixer.voices.iter().all(|v| !v.active));
}

#[test]
fn test_render_silence() {
    let mut mixer = RtMixer::new(2);
    let mut output = vec![0i64; 200]; // 100 frames of stereo
    let mut peaks = zero_peaks();

    mixer.render(&mut output, &mut peaks);

    // Output should be silence (all zeros)
    assert!(output.iter().all(|&s| s == 0));
}

#[test]
fn test_render_with_voice() {
    let mut mixer = RtMixer::new(2);
    let sample = create_test_sample(2, 10, 500_000);
    mixer.load_sample(0, sample);
    mixer.play_sample(0, 1_000_000);

    let mut output = vec![0i64; 20]; // 10 frames of stereo
    let mut peaks = zero_peaks();

    mixer.render(&mut output, &mut peaks);

    // Output should contain sample data
    assert!(output.iter().any(|&s| s != 0));
}

#[test]
fn test_render_loop_sample() {
    let mut mixer = RtMixer::new(1);
    let sample = create_test_sample(1, 5, 500_000);
    mixer.load_sample(0, sample);
    mixer.play_sample(0, 1_000_000);

    // Render more frames than the sample contains
    let mut output = vec![0i64; 20]; // 20 frames of mono
    let mut peaks = zero_peaks();

    mixer.render(&mut output, &mut peaks);

    // Sample should loop and all frames should have data
    assert!(output.iter().all(|&s| s == 500_000));
}

#[test]
fn test_multiple_voices_mixing() {
    let mut mixer = RtMixer::new(2);
    let sample1 = create_test_sample(2, 10, 300_000);
    let sample2 = create_test_sample(2, 10, 200_000);
    mixer.load_sample(0, sample1);
    mixer.load_sample(1, sample2);

    mixer.play_sample(0, 1_000_000);
    mixer.play_sample(1, 1_000_000);

    let mut output = vec![0i64; 20]; // 10 frames of stereo
    let mut peaks = zero_peaks();

    mixer.render(&mut output, &mut peaks);

    // Output should contain mixed samples (0.3 + 0.2 = 0.5 per channel)
    assert!(output.iter().all(|&s| s == 500_000));
}

#[test]
fn test_voice_limit() {
    let mut mixer = RtMixer::new(1);

    // Create MAX_VOICES + 5 samples
    for i in 0..(MAX_VOICES + 5) {
        let sample = create_test_sample(1, 10, 500_000);
        mixer.load_sample(i, sample);
        mixer.play_sample(i, 1_000_000);
    }

    // Only MAX_VOICES voices should be active
    assert_eq!(mixer.voices.iter().filter(|v| v.active).count(), MAX_VOICES);
}

#[test]
fn test_mixing_loops_sample_buffer() {
    let sample = SampleBuffer {
        channels: 2,
        samples: vec![500_000, -500_000, 250_000, -250_000],
    };

    let mut mixer = RtMixer::new(2);
    mixer.load_sample(0, sample);
    mixer.play_sample(0, 500_000);

    let mut out = vec![0i64; 8];
    let mut peaks = zero_peaks();
    mixer.render(&mut out, &mut peaks);

    assert_eq!(out[0], 250_000);
    assert_eq!(out[1], -250_000);
    assert_eq!(out[2], 125_000);
    assert_eq!(out[3], -125_000);
    assert_eq!(out[4], 250_000);
    assert_eq!(out[5], -250_000);
    assert_eq!(out[6], 125_000);
    assert_eq!(out[7], -125_000);

    let mut out2 = vec![0i64; 4];
    let mut peaks2 = zero_peaks();
    mixer.render(&mut out2, &mut peaks2);
    assert_eq!(out2[0], 250_000);
    assert_eq!(out2[1], -250_000);
    assert_eq!(out2[2], 125_000);
    assert_eq!(out2[3], -125_000);
}

#[test]
fn test_mixing_unload_sample_stops_voices_and_clears_slot() {
    let sample = SampleBuffer {
        channels: 2,
        samples: vec![500_000, -500_000, 500_000, -500_000],
    };

    let mut mixer = RtMixer::new(2);
    mixer.load_sample(0, sample);
    mixer.play_sample(0, 1_000_000);

    let mut out = vec![0i64; 4];
    let mut peaks = zero_peaks();
    mixer.render(&mut out, &mut peaks);
    assert!(out.iter().any(|&s| s != 0));

    mixer.unload_sample(0);

    out.fill(1_000_000);
    mixer.render(&mut out, &mut peaks);
    assert!(out.iter().all(|&s| s == 0));

    mixer.play_sample(0, 1_000_000);
    out.fill(1_000_000);
    mixer.render(&mut out, &mut peaks);
    assert!(out.iter().all(|&s| s == 0));
}

#[test]
fn test_mixing_stop_sample_silences_active_voices() {
    let sample = SampleBuffer {
        channels: 2,
        samples: vec![
            500_000, -500_000, 500_000, -500_000, 500_000, -500_000, 500_000, -500_000,
        ],
    };

    let mut mixer = RtMixer::new(2);
    mixer.load_sample(0, sample);
    mixer.play_sample(0, 1_000_000);
    mixer.play_sample(0, 1_000_000);

    let mut out = vec![0i64; 4];
    let mut peaks = zero_peaks();
    mixer.render(&mut out, &mut peaks);
    assert!(out.iter().any(|&s| s != 0));

    mixer.stop_sample(0);
    out.fill(1_000_000);
    mixer.render(&mut out, &mut peaks);
    assert!(out.iter().all(|&s| s == 0));
}

#[test]
fn test_mixing_stop_all_silences_all_active_voices() {
    let sample_a = SampleBuffer {
        channels: 2,
        samples: vec![500_000, -500_000, 500_000, -500_000],
    };
    let sample_b = SampleBuffer {
        channels: 2,
        samples: vec![250_000, -250_000, 250_000, -250_000],
    };

    let mut mixer = RtMixer::new(2);
    mixer.load_sample(0, sample_a);
    mixer.load_sample(1, sample_b);
    mixer.play_sample(0, 1_000_000);
    mixer.play_sample(1, 1_000_000);

    let mut out = vec![0i64; 4];
    let mut peaks = zero_peaks();
    mixer.render(&mut out, &mut peaks);
    assert!(out.iter().any(|&s| s != 0));

    mixer.stop_all();
    out.fill(1_000_000);
    mixer.render(&mut out, &mut peaks);
    assert!(out.iter().all(|&s| s == 0));

    mixer.play_sample(0, 1_000_000);
    mixer.render(&mut out, &mut peaks);
    assert!(out.iter().any(|&s| s != 0));
}

#[test]
fn test_effective_ratio_bpm_lock() {
    // Master at 120 BPM, pad at 90 BPM, lock on, unity speed: the pad is
    // stretched to 120/90 of its native tempo.
    let mut mixer = RtMixer::new(2);
    mixer.set_master_bpm(120_000);
    mixer.set_pad_bpm(0, Some(90_000));
    mixer.set_bpm_lock(true);
    mixer.set_speed(AMP_UNIT);
    assert_eq!(mixer.effective_ratio(0), 1_333_333);

    // Without the lock the global speed rules.
    mixer.set_bpm_lock(false);
    mixer.set_speed(1_500_000);
    assert_eq!(mixer.effective_ratio(0), 1_500_000);
}

#[test]
fn test_effective_ratio_clamped() {
    // 240/60 = 4x would exceed the speed range and is clamped.
    let mut mixer = RtMixer::new(2);
    mixer.set_master_bpm(240_000);
    mixer.set_pad_bpm(0, Some(60_000));
    mixer.set_bpm_lock(true);
    assert_eq!(mixer.effective_ratio(0), looper_audio::SPEED_MAX);
}

#[test]
fn test_bpm_lock_off_clears_master() {
    let mut mixer = RtMixer::new(2);
    mixer.set_master_bpm(120_000);
    mixer.set_bpm_lock(true);
    assert_eq!(mixer.master_bpm, Some(120_000));
    mixer.set_bpm_lock(false);
    assert_eq!(mixer.master_bpm, None);
}

#[test]
fn test_set_volume_validation() {
    let mut mixer = RtMixer::new(2);
    mixer.set_volume(300_000);
    assert_eq!(mixer.volume, 300_000);
    // Out-of-range values are silently dropped.
    mixer.set_volume(2_000_000);
    assert_eq!(mixer.volume, 300_000);
    mixer.set_volume(-1);
    assert_eq!(mixer.volume, 300_000);
}

#[test]
fn test_set_speed_validation() {
    let mut mixer = RtMixer::new(2);
    mixer.set_speed(750_000);
    assert_eq!(mixer.speed, 750_000);
    mixer.set_speed(2_000_001);
    assert_eq!(mixer.speed, 750_000);
    mixer.set_speed(499_999);
    assert_eq!(mixer.speed, 750_000);
}
