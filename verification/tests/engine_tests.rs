use looper_audio::engine::{drain_control, AudioEngine, LoaderRegistry, RING_CAPACITY};
use looper_audio::errors::EngineError;
use looper_audio::messages::{AudioMessage, SampleBuffer};
use looper_audio::mixer::RtMixer;
use looper_audio::transport::{new_audio_ring, new_control_ring};
use looper_audio::NUM_SAMPLES;

/// Wires a facade to a mixer-side pair of ring endpoints, as the stream
/// host does when the device starts.
fn attached_engine() -> (
    AudioEngine,
    rtrb::Consumer<looper_audio::messages::ControlMessage>,
    rtrb::Producer<AudioMessage>,
) {
    let (control_tx, control_rx) = new_control_ring(RING_CAPACITY);
    let (audio_tx, audio_rx) = new_audio_ring(RING_CAPACITY);
    let mut engine = AudioEngine::new();
    engine.attach_stream(control_tx, audio_rx, 2, 48_000).unwrap();
    (engine, control_rx, audio_tx)
}

#[test]
fn test_audio_engine_creation() {
    let engine = AudioEngine::new();
    assert!(!engine.is_playing);
}

#[test]
fn test_audio_engine_play_stop() {
    let (mut engine, _control_rx, _audio_tx) = attached_engine();
    assert!(engine.is_playing);

    engine.shut_down();
    assert!(!engine.is_playing);
}

#[test]
fn test_ring_buffer_operations() {
    let mut engine = AudioEngine::new();

    let result = engine.ping();
    assert!(result.is_err());

    let (control_tx, control_rx) = new_control_ring(RING_CAPACITY);
    let (audio_tx, audio_rx) = new_audio_ring(RING_CAPACITY);
    engine.attach_stream(control_tx, audio_rx, 2, 48_000).unwrap();

    let result = engine.ping();
    assert!(result.is_ok());

    let mut mixer = RtMixer::new(2);
    let mut control_rx = control_rx;
    let mut audio_tx = audio_tx;
    drain_control(&mut mixer, &mut control_rx, &mut audio_tx);

    let msg = engine.receive_msg().unwrap();
    assert!(matches!(msg, Some(AudioMessage::Pong)));

    engine.shut_down();
    assert!(!engine.is_playing);
}

#[test]
fn test_message_sending_receiving() {
    let (mut engine, mut control_rx, mut audio_tx) = attached_engine();

    for _ in 0..5 {
        let result = engine.ping();
        assert!(result.is_ok());
    }

    let mut mixer = RtMixer::new(2);
    drain_control(&mut mixer, &mut control_rx, &mut audio_tx);

    for _ in 0..5 {
        let msg = engine.receive_msg().unwrap();
        assert!(matches!(msg, Some(AudioMessage::Pong)));
    }
    assert!(engine.receive_msg().unwrap().is_none());
}

#[test]
fn test_facade_validation_errors() {
    let (mut engine, _control_rx, _audio_tx) = attached_engine();

    assert_eq!(engine.play_sample(NUM_SAMPLES, 500_000), Err(EngineError::InvalidId));
    assert_eq!(engine.play_sample(0, 1_000_001), Err(EngineError::InvalidValue));
    assert_eq!(engine.play_sample(0, -1), Err(EngineError::InvalidValue));
    assert_eq!(engine.set_volume(1_000_001), Err(EngineError::InvalidValue));
    assert_eq!(engine.set_speed(400_000), Err(EngineError::InvalidValue));
    assert_eq!(engine.set_master_bpm(0), Err(EngineError::InvalidValue));
    assert_eq!(engine.set_pad_bpm(0, Some(-5)), Err(EngineError::InvalidValue));
    assert_eq!(engine.set_pad_gain(0, 1_000_001), Err(EngineError::InvalidValue));
    assert_eq!(engine.set_pad_eq(0, -12_001, 0, 0), Err(EngineError::InvalidValue));
    assert_eq!(engine.stop_sample(NUM_SAMPLES + 7), Err(EngineError::InvalidId));
    assert_eq!(engine.unload_sample(NUM_SAMPLES), Err(EngineError::InvalidId));

    let mut cold = AudioEngine::new();
    assert_eq!(cold.play_sample(0, 500_000), Err(EngineError::NotInitialized));
    assert_eq!(cold.stop_all(), Err(EngineError::NotInitialized));
    assert_eq!(cold.receive_msg(), Err(EngineError::NotInitialized));
}

#[test]
fn test_facade_queue_full() {
    // A control ring of capacity one: the second push must report QueueFull.
    let (control_tx, _control_rx) = new_control_ring(1);
    let (_audio_tx, audio_rx) = new_audio_ring(1);
    let mut engine = AudioEngine::new();
    engine.attach_stream(control_tx, audio_rx, 2, 48_000).unwrap();

    assert!(engine.ping().is_ok());
    assert_eq!(engine.ping(), Err(EngineError::QueueFull));
}

#[test]
fn test_drain_applies_messages_in_order() {
    let (mut engine, mut control_rx, mut audio_tx) = attached_engine();

    let sample = SampleBuffer { channels: 2, samples: vec![400_000, 400_000] };
    engine.load_sample(3, sample).unwrap();
    engine.play_sample(3, 900_000).unwrap();
    engine.set_volume(250_000).unwrap();
    engine.set_volume(750_000).unwrap();
    engine.set_key_lock(true).unwrap();

    let mut mixer = RtMixer::new(2);
    drain_control(&mut mixer, &mut control_rx, &mut audio_tx);

    // Each message was applied exactly once, in FIFO order: the pad is
    // loaded, a voice is active, and the later volume message won.
    assert!(mixer.sample_bank[3].is_some());
    assert!(mixer.voices.iter().any(|v| v.active && v.sample_id == 3));
    assert_eq!(mixer.volume, 750_000);
    assert!(mixer.key_lock_enabled);
}

#[test]
fn test_loop_region_microseconds_to_frames() {
    // At 10 Hz, 200_000 us is frame 2 and 500_000 us is frame 5.
    let (control_tx, mut control_rx) = new_control_ring(RING_CAPACITY);
    let (mut audio_tx, audio_rx) = new_audio_ring(RING_CAPACITY);
    let mut engine = AudioEngine::new();
    engine.attach_stream(control_tx, audio_rx, 1, 10).unwrap();

    engine.set_pad_loop_region(0, 200_000, Some(500_000)).unwrap();

    let mut mixer = RtMixer::new(1);
    drain_control(&mut mixer, &mut control_rx, &mut audio_tx);
    assert_eq!(mixer.pad_loop_start[0], 2);
    assert_eq!(mixer.pad_loop_end[0], Some(5));
}

#[test]
fn test_loader_registry_rejects_duplicates() {
    let mut reg = LoaderRegistry::new();

    assert!(reg.begin_load(5).is_ok());
    assert_eq!(reg.begin_load(5), Err(EngineError::AlreadyLoading));
    assert_eq!(reg.begin_load(NUM_SAMPLES), Err(EngineError::InvalidId));

    // While loading, analysis of the same pad is rejected.
    assert_eq!(reg.begin_analysis(5), Err(EngineError::AlreadyLoading));

    // Finishing the load stores the shadow copy and releases the slot.
    let sample = SampleBuffer { channels: 2, samples: vec![1, 2] };
    reg.finish_load(5, Some(sample));
    assert!(reg.begin_load(5).is_ok());
    reg.finish_load(5, None);

    // Analysis needs a shadow copy.
    assert_eq!(reg.begin_analysis(5), Err(EngineError::NoShadowCopy));
    let sample = SampleBuffer { channels: 2, samples: vec![1, 2] };
    reg.finish_load(5, Some(sample));
    assert!(reg.begin_analysis(5).is_ok());
    assert_eq!(reg.begin_analysis(5), Err(EngineError::AlreadyRunningTask));
    reg.finish_analysis(5);
    assert!(reg.begin_analysis(5).is_ok());
    assert!(reg.shadow_sample(5).is_some());
}

#[test]
fn test_drain_answers_only_pings() {
    // Three pings among other traffic: the drain answers each ping with one
    // pong and pushes nothing else onto the audio ring.
    let (mut engine, mut control_rx, mut audio_tx) = attached_engine();
    engine.ping().unwrap();
    engine.set_volume(400_000).unwrap();
    engine.ping().unwrap();
    engine.stop_all().unwrap();
    engine.ping().unwrap();

    let mut mixer = RtMixer::new(2);
    drain_control(&mut mixer, &mut control_rx, &mut audio_tx);

    let mut pongs = 0;
    while let Some(msg) = engine.receive_msg().unwrap() {
        assert!(matches!(msg, AudioMessage::Pong));
        pongs += 1;
    }
    assert_eq!(pongs, 3);
}
