use vail_zoomer::audio::{
    handle_command, plan_streams, route_from_index, route_to_index, AudioCommand, EngineAction,
    SidetoneRoute, StreamSet,
};
use vail_zoomer::meter::LevelMeter;
use vail_zoomer::mixer::AudioCore;
use vail_zoomer::ring::MicRing;
use vail_zoomer::sidetone::SidetoneGenerator;

fn idle() -> StreamSet {
    StreamSet { input: false, output: false, local: false, playback: false }
}

#[test]
fn test_stop_when_idle_is_a_no_op() {
    let mut core = AudioCore::new(600, 16384, 9830, 48_000);
    let mut streams = idle();
    let action = handle_command(&mut core, &mut streams, AudioCommand::Stop);
    assert!(matches!(action, EngineAction::NoAction));
    assert_eq!(streams, idle());
    // The core's observable state is untouched.
    assert_eq!(core.get_mic_level(), 0);
    assert_eq!(core.get_output_level(), 0);
    assert!(!core.is_recording());
    assert!(!core.is_playing());
}

#[test]
fn test_start_plans_streams_by_route() {
    assert_eq!(plan_streams(SidetoneRoute::OutputOnly), (true, false));
    assert_eq!(plan_streams(SidetoneRoute::LocalOnly), (false, true));
    assert_eq!(plan_streams(SidetoneRoute::Both), (true, true));

    let mut core = AudioCore::new(600, 16384, 9830, 48_000);
    let mut streams = idle();
    let action = handle_command(
        &mut core,
        &mut streams,
        AudioCommand::Start {
            output_device: None,
            input_device: None,
            local_device: None,
            sidetone_route: SidetoneRoute::Both,
        },
    );
    assert!(matches!(action, EngineAction::RebuildStreams { route: SidetoneRoute::Both, .. }));
    assert_eq!(
        streams,
        StreamSet { input: true, output: true, local: true, playback: false }
    );
}

#[test]
fn test_stop_after_start_leaves_playback_alone() {
    let mut core = AudioCore::new(600, 16384, 9830, 48_000);
    let mut streams = idle();
    handle_command(
        &mut core,
        &mut streams,
        AudioCommand::StartPlayback { device: None },
    );
    assert!(streams.playback);
    handle_command(&mut core, &mut streams, AudioCommand::Stop);
    assert!(streams.playback);
    let action = handle_command(&mut core, &mut streams, AudioCommand::StopPlayback);
    assert!(matches!(action, EngineAction::ClosePlayback));
    assert!(!streams.playback);
    let action = handle_command(&mut core, &mut streams, AudioCommand::Shutdown);
    assert!(matches!(action, EngineAction::Exit));
    assert_eq!(streams, idle());
}

#[test]
fn test_route_indices_round_trip() {
    assert_eq!(route_to_index(SidetoneRoute::OutputOnly), 0);
    assert_eq!(route_to_index(SidetoneRoute::LocalOnly), 1);
    assert_eq!(route_to_index(SidetoneRoute::Both), 2);
    assert_eq!(route_from_index(0), SidetoneRoute::OutputOnly);
    assert_eq!(route_from_index(1), SidetoneRoute::LocalOnly);
    assert_eq!(route_from_index(7), SidetoneRoute::Both);
}

#[test]
fn test_ring_buffer_never_blocks() {
    let mut ring = MicRing::new(2);
    assert!(ring.try_push(10));
    assert!(ring.try_push(20));
    // Full: the newest sample is dropped, without panicking.
    assert!(!ring.try_push(30));
    // FIFO order out.
    assert_eq!(ring.try_pop(), Some(10));
    assert_eq!(ring.try_pop(), Some(20));
    // Empty: nothing comes out, the caller substitutes silence.
    assert_eq!(ring.try_pop(), None);
}

#[test]
fn test_level_meter_fast_attack_slow_decay() {
    let mut meter = LevelMeter::new();
    meter.update(32_768);
    assert_eq!(meter.level(), 32_768);
    meter.update(0);
    // One decay step: 95 percent of the old level.
    assert_eq!(meter.level(), 31_129);
    meter.update(32_000);
    // A peak above the level jumps straight to it.
    assert_eq!(meter.level(), 32_000);
}

#[test]
fn test_sidetone_walks_the_sine_and_wraps_phase() {
    // One cycle every four samples: the phase visits 0, a quarter, a half
    // and three quarters of a turn, then wraps back to zero.
    let mut gen = SidetoneGenerator::new(1, 32_768, 4);
    assert_eq!(gen.next_sample(true), 0); // sin 0
    assert_eq!(gen.next_sample(true), 32_767); // sin at a quarter turn
    assert_eq!(gen.next_sample(true), 0); // sin at a half turn
    assert_eq!(gen.next_sample(true), -32_767); // sin at three quarters
    assert_eq!(gen.next_sample(true), 0); // wrapped around
}

#[test]
fn test_envelope_ramps_and_clamps() {
    // At 48 kHz one envelope step is 136 of 32768 (about 5 ms to full).
    let mut gen = SidetoneGenerator::new(600, 32_768, 48_000);
    gen.next_sample(true);
    let mut previous = 0i32;
    // While the key stays down the output from a rising envelope at a
    // fixed low phase region keeps growing until the envelope saturates.
    for _ in 0..300 {
        let s = gen.next_sample(true);
        let _ = previous;
        previous = s;
    }
    // After 300 samples the envelope is long since full; samples stay in
    // full scale.
    for _ in 0..100 {
        let s = gen.next_sample(true);
        assert!((-32_768..=32_768).contains(&s));
    }
    // Key up: decays back to silence within about 5 ms of samples.
    for _ in 0..300 {
        gen.next_sample(false);
    }
    assert_eq!(gen.next_sample(false), 0);
}
