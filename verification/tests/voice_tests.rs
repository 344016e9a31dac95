use looper_audio::messages::SampleBuffer;
use looper_audio::voice::Voice;
use looper_audio::voice_slot::VoiceSlot;

#[test]
fn test_voice_creation() {
    let sample = SampleBuffer { channels: 2, samples: vec![0, 0, 0, 0] };

    let voice = Voice::new(42, sample.clone(), 750_000);

    assert_eq!(voice.sample_id, 42);
    assert_eq!(voice.frame_pos, 0);
    assert_eq!(voice.volume, 750_000);
}

#[test]
fn test_voice_with_minimal_sample() {
    let sample = SampleBuffer { channels: 1, samples: vec![500_000] };

    let voice = Voice::new(0, sample, 1_000_000);

    assert_eq!(voice.sample_id, 0);
    assert_eq!(voice.frame_pos, 0);
    assert_eq!(voice.volume, 1_000_000);
}

#[test]
fn test_voice_with_multiple_channels() {
    let sample = SampleBuffer { channels: 4, samples: vec![100_000, 200_000, 300_000, 400_000] };

    let voice = Voice::new(10, sample, 500_000);

    assert_eq!(voice.sample_id, 10);
    assert_eq!(voice.frame_pos, 0);
    assert_eq!(voice.volume, 500_000);
}

#[test]
fn test_voice_zero_volume() {
    let sample = SampleBuffer { channels: 2, samples: vec![500_000, -500_000] };

    let voice = Voice::new(5, sample, 0);

    assert_eq!(voice.sample_id, 5);
    assert_eq!(voice.frame_pos, 0);
    assert_eq!(voice.volume, 0);
}

#[test]
fn test_multiple_voices_with_same_sample() {
    let sample = SampleBuffer { channels: 2, samples: vec![100_000, -100_000] };

    let voice1 = Voice::new(0, sample.clone(), 1_000_000);
    let voice2 = Voice::new(0, sample.clone(), 500_000);
    let voice3 = Voice::new(0, sample, 250_000);

    assert_eq!(voice1.sample_id, 0);
    assert_eq!(voice2.sample_id, 0);
    assert_eq!(voice3.sample_id, 0);
    assert_eq!(voice1.volume, 1_000_000);
    assert_eq!(voice2.volume, 500_000);
    assert_eq!(voice3.volume, 250_000);
}

#[test]
fn test_voice_slot_lifecycle() {
    let mut slot = VoiceSlot::new(2);
    assert!(!slot.active);

    let sample = SampleBuffer { channels: 2, samples: vec![500_000, -500_000] };
    slot.start(7, sample, 3, 800_000, 1_200_000);
    assert!(slot.active);
    assert_eq!(slot.sample_id, 7);
    assert_eq!(slot.frame_pos, 3);
    assert_eq!(slot.volume, 800_000);
    assert!(slot.is_playing_sample(7));
    assert!(!slot.is_playing_sample(8));

    slot.pause();
    assert!(slot.paused);
    assert_eq!(slot.frame_pos, 3);
    slot.resume();
    assert!(!slot.paused);

    slot.restart(0, 600_000, 1_000_000);
    assert_eq!(slot.frame_pos, 0);
    assert_eq!(slot.volume, 600_000);

    slot.stop();
    assert!(!slot.active);
    assert!(slot.sample.is_none());
}

#[test]
fn test_voice_slot_tempo_smoothing() {
    let mut slot = VoiceSlot::new(1);
    // Starts at unity; the smoother moves at most 0.05 per block toward the
    // target and clamps into the speed range.
    assert_eq!(slot.smooth_tempo_ratio(2_000_000), 1_050_000);
    assert_eq!(slot.smooth_tempo_ratio(2_000_000), 1_100_000);
    assert_eq!(slot.smooth_tempo_ratio(1_090_000), 1_090_000);
    // Targets beyond the range are clamped before smoothing.
    assert_eq!(slot.smooth_tempo_ratio(10_000_000), 1_140_000);
    // A target below the range pulls downward, clamped to the range.
    let mut low = VoiceSlot::new(1);
    low.tempo_ratio_smoothed = 520_000;
    assert_eq!(low.smooth_tempo_ratio(0), 500_000);
}
