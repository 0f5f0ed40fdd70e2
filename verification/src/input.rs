//! The hardware keyer's MIDI surface: decoding incoming messages into
//! events, and encoding outbound configuration messages byte-exactly.
//!
//! The wire contract: ControlChange 0 selects MIDI-vs-keyboard mode;
//! ControlChange 1 carries the dit duration, `value = min(127, (1200 /
//! wpm) / 2)`; ControlChange 2 carries the sidetone note; ProgramChange
//! 0..=9 selects the keyer type. NoteOn is key-down; NoteOff, or NoteOn
//! with velocity zero, is key-up.

use vstd::prelude::*;
use crate::config::KeyerType;

verus! {

/// Control Change 0: mode control (0 selects MIDI mode).
pub const CC_MODE: u8 = 0x00;

/// Control Change 0 value for MIDI mode.
pub const MODE_MIDI: u8 = 0x00;

/// Control Change 1: dit duration.
pub const CC_DIT_DURATION: u8 = 0x01;

/// Control Change 2: sidetone note.
pub const CC_SIDETONE_NOTE: u8 = 0x02;

/// MIDI event types.
#[derive(Clone, Copy, Debug, PartialEq, Eq, Structural)]
pub enum MidiEvent {
    NoteOn { note: u8, velocity: u8 },
    NoteOff { note: u8 },
    ControlChange { controller: u8, value: u8 },
}

/// What a raw MIDI message means: NoteOn with velocity zero reads as
/// NoteOff; anything unrecognized reads as nothing.
pub open spec fn parse_midi_spec(m: Seq<u8>) -> Option<MidiEvent> {
    if m.len() == 0 {
        None
    } else {
        let kind = m[0] & 0xF0;
        if kind == 0x90 && m.len() >= 3 {
            if m[2] > 0 {
                Some(MidiEvent::NoteOn { note: m[1], velocity: m[2] })
            } else {
                Some(MidiEvent::NoteOff { note: m[1] })
            }
        } else if kind == 0x80 && m.len() >= 2 {
            Some(MidiEvent::NoteOff { note: m[1] })
        } else if kind == 0xB0 && m.len() >= 3 {
            Some(MidiEvent::ControlChange { controller: m[1], value: m[2] })
        } else {
            None
        }
    }
}

/// Parse raw MIDI bytes into an event.
pub fn parse_midi_message(message: &[u8]) -> (r: Option<MidiEvent>)
    ensures
        r == parse_midi_spec(message@),
{
    if message.len() == 0 {
        return None;
    }
    let status = message[0];
    let message_type = status & 0xF0;
    if message_type == 0x90 && message.len() >= 3 {
        let note = message[1];
        let velocity = message[2];
        if velocity > 0 {
            Some(MidiEvent::NoteOn { note, velocity })
        } else {
            Some(MidiEvent::NoteOff { note })
        }
    } else if message_type == 0x80 && message.len() >= 2 {
        Some(MidiEvent::NoteOff { note: message[1] })
    } else if message_type == 0xB0 && message.len() >= 3 {
        Some(MidiEvent::ControlChange { controller: message[1], value: message[2] })
    } else {
        None
    }
}

/// Whether a NoteOn note number means a dit: the adapter sends note 1 in
/// keyer modes and C sharp (61) in passthrough mode.
pub fn note_is_dit(note: u8) -> (r: bool)
    ensures
        r == (note == 1 || note == 61),
{
    note == 1 || note == 61
}

/// The ProgramChange number for a keyer type on the wire (0 is
/// passthrough; the named types follow in order).
pub fn keyer_type_code(keyer_type: KeyerType) -> (r: u8)
    ensures
        keyer_type == KeyerType::Straight ==> r == 1,
        keyer_type == KeyerType::Bug ==> r == 2,
        keyer_type == KeyerType::ElBug ==> r == 3,
        keyer_type == KeyerType::SingleDot ==> r == 4,
        keyer_type == KeyerType::Ultimatic ==> r == 5,
        keyer_type == KeyerType::PlainIambic ==> r == 6,
        keyer_type == KeyerType::IambicA ==> r == 7,
        keyer_type == KeyerType::IambicB ==> r == 8,
        keyer_type == KeyerType::Keyahead ==> r == 9,
    {
    match keyer_type {
        KeyerType::Straight => 1,
        KeyerType::Bug => 2,
        KeyerType::ElBug => 3,
        KeyerType::SingleDot => 4,
        KeyerType::Ultimatic => 5,
        KeyerType::PlainIambic => 6,
        KeyerType::IambicA => 7,
        KeyerType::IambicB => 8,
        KeyerType::Keyahead => 9,
    }
}

/// The message switching the adapter into MIDI mode (ControlChange 0).
pub fn encode_mode_switch() -> (r: Vec<u8>)
    ensures
        r@ == seq![0xB0u8, CC_MODE, MODE_MIDI],
{
    let mut m: Vec<u8> = Vec::new();
    m.push(0xB0);
    m.push(CC_MODE);
    m.push(MODE_MIDI);
    proof {
        assert(m@ =~= seq![0xB0u8, CC_MODE, MODE_MIDI]);
    }
    m
}

/// The ProgramChange message selecting a keyer type, clamped to the valid
/// range 0..=9.
pub fn encode_keyer_type(keyer_type: u8) -> (r: Vec<u8>)
    ensures
        r@ == seq![
            0xC0u8,
            if keyer_type <= 9 {
                keyer_type
            } else {
                9u8
            },
        ],
{
    let mut m: Vec<u8> = Vec::new();
    m.push(0xC0);
    m.push(if keyer_type <= 9 {
        keyer_type
    } else {
        9
    });
    proof {
        assert(m@ =~= seq![
            0xC0u8,
            if keyer_type <= 9 {
                keyer_type
            } else {
                9u8
            },
        ]);
    }
    m
}

/// The ControlChange 1 value carrying a speed: half the dit duration in
/// milliseconds, capped at 127; speeds below 5 WPM read as 5 WPM.
pub open spec fn wpm_cc_value(wpm: int) -> int {
    let clamped = if wpm >= 5 {
        wpm
    } else {
        5int
    };
    let dit_ms = 1200int / clamped;
    if dit_ms / 2 <= 127 {
        dit_ms / 2
    } else {
        127
    }
}

/// The ControlChange message carrying the sending speed.
pub fn encode_wpm(wpm: u8) -> (r: Vec<u8>)
    ensures
        r@ == seq![0xB0u8, CC_DIT_DURATION, wpm_cc_value(wpm as int) as u8],
        r@[2] <= 127,
{
    let clamped: u16 = if wpm >= 5 {
        wpm as u16
    } else {
        5
    };
    let dit_ms: u16 = 1200 / clamped;
    let cc_value: u8 = if dit_ms / 2 <= 127 {
        (dit_ms / 2) as u8
    } else {
        127
    };
    let mut m: Vec<u8> = Vec::new();
    m.push(0xB0);
    m.push(CC_DIT_DURATION);
    m.push(cc_value);
    proof {
        assert(m@ =~= seq![0xB0u8, CC_DIT_DURATION, wpm_cc_value(wpm as int) as u8]);
    }
    m
}

/// The ControlChange message carrying the sidetone note, capped to the
/// MIDI data range.
pub fn encode_sidetone_note(note: u8) -> (r: Vec<u8>)
    ensures
        r@ == seq![
            0xB0u8,
            CC_SIDETONE_NOTE,
            if note <= 127 {
                note
            } else {
                127u8
            },
        ],
{
    let mut m: Vec<u8> = Vec::new();
    m.push(0xB0);
    m.push(CC_SIDETONE_NOTE);
    m.push(if note <= 127 {
        note
    } else {
        127
    });
    proof {
        assert(m@ =~= seq![
            0xB0u8,
            CC_SIDETONE_NOTE,
            if note <= 127 {
                note
            } else {
                127u8
            },
        ]);
    }
    m
}

} // verus!
