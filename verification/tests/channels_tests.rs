use looper_audio::channels::map_channels;
use looper_audio::errors::SampleLoadError;

#[test]
fn channels_test_map_channels_mono_to_stereo() {
    let input = vec![500_000, -300_000, 800_000];
    let output = map_channels(input, 1, 2).unwrap();

    assert_eq!(output.len(), 6); // 3 frames x 2 channels
    assert_eq!(output, vec![500_000, 500_000, -300_000, -300_000, 800_000, 800_000]);
}

#[test]
fn channels_test_map_channels_stereo_to_mono() {
    let input = vec![500_000, 300_000, -200_000, 400_000, 800_000, 600_000];
    let output = map_channels(input, 2, 1).unwrap();

    assert_eq!(output.len(), 3); // 3 frames x 1 channel
    assert_eq!(output[0], 400_000); // (0.5 + 0.3) / 2
    assert_eq!(output[1], 100_000); // (-0.2 + 0.4) / 2
    assert_eq!(output[2], 700_000); // (0.8 + 0.6) / 2
}

#[test]
fn channels_test_map_channels_same_channels() {
    let input = vec![500_000, -300_000, 800_000, 200_000];
    let output = map_channels(input.clone(), 2, 2).unwrap();

    assert_eq!(output, input); // Should return unchanged
}

#[test]
fn channels_test_map_channels_unsupported() {
    let input = vec![500_000, -300_000, 800_000, 200_000];
    let result = map_channels(input, 2, 4);

    assert!(matches!(result, Err(SampleLoadError::UnsupportedChannels { .. })));
}

#[test]
fn sample_loader_test_map_channels_mono_to_stereo() {
    let input = vec![500_000, -300_000, 800_000];
    let output = map_channels(input, 1, 2).unwrap();

    assert_eq!(output.len(), 6);
    assert_eq!(output, vec![500_000, 500_000, -300_000, -300_000, 800_000, 800_000]);
}

#[test]
fn sample_loader_test_map_channels_stereo_to_mono() {
    let input = vec![500_000, 300_000, -200_000, 400_000, 800_000, 600_000];
    let output = map_channels(input, 2, 1).unwrap();

    assert_eq!(output.len(), 3);
    assert_eq!(output[0], 400_000);
    assert_eq!(output[1], 100_000);
    assert_eq!(output[2], 700_000);
}

#[test]
fn sample_loader_test_map_channels_same_channels() {
    let input = vec![500_000, -300_000, 800_000, 200_000];
    let output = map_channels(input.clone(), 2, 2).unwrap();

    assert_eq!(output, input);
}

#[test]
fn sample_loader_test_map_channels_unsupported() {
    let input = vec![500_000, -300_000, 800_000, 200_000];
    let result = map_channels(input, 2, 4);

    assert!(matches!(result, Err(SampleLoadError::UnsupportedChannels { .. })));
}

#[test]
fn test_channel_map_round_trip() {
    // Mono -> stereo -> mono reproduces the original exactly, negative
    // samples and odd values included.
    let input = vec![1, -1, 123_457, -999_999, 0, 500_000];
    let up = map_channels(input.clone(), 1, 2).unwrap();
    let down = map_channels(up, 2, 1).unwrap();
    assert_eq!(down, input);
}

#[test]
fn test_stereo_to_mono_rounds_toward_zero() {
    // (-1 + 0) / 2 rounds toward zero: the mean of a tiny negative sample
    // and silence is indistinguishable from silence at this scale.
    let out = map_channels(vec![-1, 0], 2, 1).unwrap();
    assert_eq!(out, vec![0]);
}
