use vail_zoomer::config::KeyerType;
use vail_zoomer::cw::CwEngine;

#[test]
fn test_key_events_decode_a_character() {
    let mut engine = CwEngine::new(20);
    // A dah of 180 ms keyed at wall-clock instants (milliseconds).
    assert!(engine.key_down(false, 1_000).is_none());
    assert!(engine.key_up(1_180).is_none());
    // The next key-down closes the 240 ms silence: a character boundary,
    // resolving "-" to T.
    let decoded = engine.key_down(false, 1_420).expect("expected a decoded character");
    assert_eq!(decoded.character, "T");
}

#[test]
fn test_check_timeout_fires_only_after_window() {
    let mut engine = CwEngine::new(20);
    engine.key_down(false, 1_000);
    engine.key_up(1_060); // a 60 ms dit
    // Before 1.5 s of silence: nothing.
    assert!(engine.check_timeout(1_100).is_none());
    assert!(engine.check_timeout(2_500).is_none());
    // At 1.5 s the pending "." resolves to E; a silence this long is also
    // a word boundary, so a single space follows.
    let decoded = engine.check_timeout(2_560).expect("expected a flush");
    assert_eq!(decoded.character, "E ");
    // The flush fires only once per silence period.
    assert!(engine.check_timeout(3_000).is_none());
}

#[test]
fn test_configuration_changes_keep_decoder_state() {
    let mut engine = CwEngine::new(20);
    assert_eq!(engine.wpm(), 20);
    assert_eq!(engine.dit_duration_ms(), 60);
    engine.set_wpm(12);
    assert_eq!(engine.wpm(), 12);
    assert_eq!(engine.dit_duration_ms(), 100);
    engine.set_keyer_type(KeyerType::IambicB);
    // The adaptive estimate is untouched by configuration changes.
    assert_eq!(engine.estimate_wpm(), 20_000);
}

#[test]
fn test_decoded_element_carries_speed_estimate() {
    let mut engine = CwEngine::new(20);
    engine.key_down(false, 0);
    engine.key_up(60);
    engine.key_down(false, 120);
    engine.key_up(180);
    let decoded = engine.check_timeout(1_700).expect("expected a flush");
    assert_eq!(decoded.character, "I ");
    assert_eq!(decoded.wpm, 20_000);
}
