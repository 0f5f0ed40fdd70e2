use vail_zoomer::capture::{CaptureBuffer, MAX_RECORDING_SAMPLES};
use vail_zoomer::mixer::AudioCore;

#[test]
fn test_mixed_sample_is_exact_and_in_range() {
    let mut core = AudioCore::new(600, 16384, 9830, 48_000);
    // Key up, empty mic transport: pure silence.
    assert_eq!(core.output_sample(), 0);
    core.key_down();
    // First keyed sample: the phase already took one 600 Hz step, the
    // envelope one attack step, at half volume — exactly 5 of 32768.
    assert_eq!(core.output_sample(), 5);
    // Second keyed sample: two phase steps, two attack steps — exactly 19.
    assert_eq!(core.output_sample(), 19);
}

#[test]
fn test_mic_passthrough_and_volume() {
    let mut core = AudioCore::new(600, 0, 0, 48_000);
    // Mono mic samples arrive through the input path.
    core.process_input(&[1000, 3000], 2); // one stereo frame, mono 2000
    assert_eq!(core.get_mic_level(), 2000);
    // Full mic volume: the sample passes through unchanged; sidetone is at
    // zero volume.
    assert_eq!(core.output_sample(), 2000);
    // Empty transport again: silence.
    assert_eq!(core.output_sample(), 0);
    // Half mic volume.
    core.process_input(&[2000], 1);
    core.set_mic_volume(16_384);
    assert_eq!(core.output_sample(), 1000);
}

#[test]
fn test_mix_clamps_to_full_scale() {
    let mut core = AudioCore::new(600, 0, 0, 48_000);
    core.process_input(&[1_000_000], 1);
    // A mic sample beyond full scale clamps to full scale.
    assert_eq!(core.output_sample(), 32_768);
    core.process_input(&[-1_000_000], 1);
    assert_eq!(core.output_sample(), -32_768);
}

#[test]
fn test_ducking_mutes_mic_for_hold_period() {
    let mut core = AudioCore::new(600, 0, 0, 48_000);
    core.set_mic_ducking(true);
    core.key_down();
    core.process_input(&[5000, 5000, 5000], 1);
    // Key down with ducking: the mic is exactly silent.
    assert_eq!(core.output_sample(), 0);
    core.key_up();
    // After key-up the hold keeps the mic silent for 12000 samples.
    let block = core.render_output(6000);
    assert!(block.iter().all(|&s| s == 0));
    let block = core.render_output(5999);
    assert!(block.iter().all(|&s| s == 0));
    // One more ducked sample exhausts the hold...
    assert_eq!(core.render_output(1), vec![0]);
    // ...and the next mic sample passes again (the first three were
    // consumed while ducked).
    core.process_input(&[7000], 1);
    core.set_mic_volume(32_768);
    assert_eq!(core.output_sample(), 7000);
}

#[test]
fn test_recording_caps_and_playback_ends() {
    let mut core = AudioCore::new(600, 0, 0, 48_000);
    core.start_recording();
    assert!(core.is_recording());
    core.process_input(&[123], 1);
    core.output_sample();
    core.output_sample();
    core.stop_recording();
    assert_eq!(core.get_recording_samples(), 2);
    // Playback replays the two samples, then goes silent and stops.
    core.start_playback();
    assert!(core.is_playing());
    let block = core.playback_block(4);
    assert_eq!(block, vec![123, 0, 0, 0]);
    assert!(!core.is_playing());
    let block = core.playback_block(2);
    assert_eq!(block, vec![0, 0]);
}

#[test]
fn test_capture_buffer_is_capped() {
    let mut buffer = CaptureBuffer::new();
    for _ in 0..MAX_RECORDING_SAMPLES {
        buffer.append(1);
    }
    assert_eq!(buffer.len(), MAX_RECORDING_SAMPLES);
    // At the cap, further samples are dropped.
    buffer.append(2);
    assert_eq!(buffer.len(), MAX_RECORDING_SAMPLES);
    assert_eq!(buffer.read(MAX_RECORDING_SAMPLES - 1), Some(1));
    assert_eq!(buffer.read(MAX_RECORDING_SAMPLES), None);
    buffer.clear();
    assert_eq!(buffer.len(), 0);
}

#[test]
fn test_recording_duration_and_progress() {
    let mut core = AudioCore::new(600, 0, 0, 48_000);
    core.start_recording();
    for _ in 0..4800 {
        core.output_sample();
    }
    core.stop_recording();
    assert_eq!(core.get_recording_samples(), 4800);
    // 4800 samples at 48 kHz are 100 ms.
    assert_eq!(core.get_recording_duration_ms(), 100);
    core.start_playback();
    core.playback_block(2400);
    assert_eq!(core.get_playback_progress_permille(), 500);
    core.playback_block(2400);
    assert_eq!(core.get_playback_progress_permille(), 1000);
}

#[test]
fn test_fresh_transport_on_stream_start() {
    let mut core = AudioCore::new(600, 0, 0, 48_000);
    core.process_input(&[111], 1);
    // Starting streams replaces the transport: no stale samples carry
    // over into a new session.
    core.begin_streams(true);
    assert_eq!(core.output_sample(), 0);
}
