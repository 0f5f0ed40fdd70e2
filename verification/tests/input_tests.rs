use vail_zoomer::config::KeyerType;
use vail_zoomer::input::{
    encode_keyer_type, encode_mode_switch, encode_sidetone_note, encode_wpm, keyer_type_code,
    note_is_dit, parse_midi_message, MidiEvent,
};

#[test]
fn test_parse_note_events() {
    assert_eq!(
        parse_midi_message(&[0x90, 1, 100]),
        Some(MidiEvent::NoteOn { note: 1, velocity: 100 })
    );
    // NoteOn with velocity zero reads as NoteOff.
    assert_eq!(parse_midi_message(&[0x90, 1, 0]), Some(MidiEvent::NoteOff { note: 1 }));
    assert_eq!(parse_midi_message(&[0x80, 61]), Some(MidiEvent::NoteOff { note: 61 }));
    // The low nibble (the channel) is ignored.
    assert_eq!(
        parse_midi_message(&[0x93, 2, 7]),
        Some(MidiEvent::NoteOn { note: 2, velocity: 7 })
    );
}

#[test]
fn test_parse_control_change_and_garbage() {
    assert_eq!(
        parse_midi_message(&[0xB0, 1, 30]),
        Some(MidiEvent::ControlChange { controller: 1, value: 30 })
    );
    assert_eq!(parse_midi_message(&[]), None);
    assert_eq!(parse_midi_message(&[0x90, 1]), None); // truncated NoteOn
    assert_eq!(parse_midi_message(&[0xB0, 1]), None); // truncated CC
    assert_eq!(parse_midi_message(&[0xC0, 3]), None); // ProgramChange: not consumed
}

#[test]
fn test_dit_notes() {
    assert!(note_is_dit(1));
    assert!(note_is_dit(61));
    assert!(!note_is_dit(2));
    assert!(!note_is_dit(62));
}

#[test]
fn test_encode_wpm_formula() {
    // 20 WPM: dit 60 ms, CC value 30.
    assert_eq!(encode_wpm(20), vec![0xB0, 0x01, 30]);
    // 12 WPM: dit 100 ms, CC value 50.
    assert_eq!(encode_wpm(12), vec![0xB0, 0x01, 50]);
    // Speeds below 5 WPM clamp to 5 WPM: dit 240 ms, CC value 120.
    assert_eq!(encode_wpm(0), vec![0xB0, 0x01, 120]);
    assert_eq!(encode_wpm(5), vec![0xB0, 0x01, 120]);
    // Very fast: 240 WPM gives dit 5 ms, CC value 2.
    assert_eq!(encode_wpm(240), vec![0xB0, 0x01, 2]);
}

#[test]
fn test_encode_keyer_and_note_messages() {
    assert_eq!(encode_keyer_type(3), vec![0xC0, 3]);
    // Clamped to the valid keyer range.
    assert_eq!(encode_keyer_type(42), vec![0xC0, 9]);
    assert_eq!(encode_sidetone_note(72), vec![0xB0, 0x02, 72]);
    assert_eq!(encode_sidetone_note(200), vec![0xB0, 0x02, 127]);
    assert_eq!(encode_mode_switch(), vec![0xB0, 0x00, 0x00]);
}

#[test]
fn test_keyer_type_codes() {
    assert_eq!(keyer_type_code(KeyerType::Straight), 1);
    assert_eq!(keyer_type_code(KeyerType::Bug), 2);
    assert_eq!(keyer_type_code(KeyerType::ElBug), 3);
    assert_eq!(keyer_type_code(KeyerType::SingleDot), 4);
    assert_eq!(keyer_type_code(KeyerType::Ultimatic), 5);
    assert_eq!(keyer_type_code(KeyerType::PlainIambic), 6);
    assert_eq!(keyer_type_code(KeyerType::IambicA), 7);
    assert_eq!(keyer_type_code(KeyerType::IambicB), 8);
    assert_eq!(keyer_type_code(KeyerType::Keyahead), 9);
}
