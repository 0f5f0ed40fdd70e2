//! Application settings consumed by the core.
//!
//! Loading and saving the settings file is the surrounding application's
//! business; the core only works with the plain values here. Volumes are
//! fixed-point on a scale of 32768 to one; ratios and weighting are in
//! thousandths.

use vstd::prelude::*;

verus! {

/// Keyer types supported by the adapter.
#[derive(Clone, Copy, Debug, PartialEq, Eq, Structural)]
pub enum KeyerType {
    Straight,
    Bug,
    IambicA,
    IambicB,
    Ultimatic,
    SingleDot,
    ElBug,
    PlainIambic,
    Keyahead,
}

impl Default for KeyerType {
    fn default() -> (r: Self)
        ensures
            r == KeyerType::Straight,
    {
        KeyerType::Straight
    }
}

/// Audio mixing mode.
#[derive(Clone, Copy, Debug, PartialEq, Eq, Structural)]
pub enum MixMode {
    AlwaysMix,
    CwMutesMic,
    PushToTalkVoice,
}

impl Default for MixMode {
    fn default() -> (r: Self)
        ensures
            r == MixMode::AlwaysMix,
    {
        MixMode::AlwaysMix
    }
}

/// Where to route sidetone audio.
#[derive(Clone, Copy, Debug, PartialEq, Eq, Structural)]
pub enum SidetoneRoute {
    /// Only to the virtual output device (silent locally).
    OutputOnly,
    /// Only to the local speakers (not mixed into the output).
    LocalOnly,
    /// Both local speakers and the output.
    Both,
}

impl Default for SidetoneRoute {
    fn default() -> (r: Self)
        ensures
            r == SidetoneRoute::OutputOnly,
    {
        SidetoneRoute::OutputOnly
    }
}

/// Application settings.
#[derive(Clone, Debug)]
pub struct Settings {
    // Keyer settings
    pub keyer_type: KeyerType,
    /// Sending speed in words per minute.
    pub wpm: u32,
    /// Dah length over dit length, in thousandths (nominal 3000).
    pub dit_dah_ratio: u32,
    /// Keying weight adjustment, in thousandths.
    pub weighting: u32,
    pub swap_paddles: bool,
    // Sidetone settings
    /// Sidetone frequency in hertz.
    pub sidetone_frequency: u32,
    /// Sidetone volume toward the output device, on a scale of 32768 to one.
    pub sidetone_volume: u16,
    /// Sidetone volume for local monitoring, on a scale of 32768 to one.
    pub local_sidetone_volume: u16,
    pub sidetone_route: SidetoneRoute,
    // Audio settings
    /// Microphone volume, on a scale of 32768 to one.
    pub mic_volume: u16,
    pub mix_mode: MixMode,
    /// Whether the microphone is muted around key transitions.
    pub mic_ducking: bool,
    /// Device for local sidetone monitoring.
    pub local_output_device: Option<String>,
    // Device settings
    pub midi_device: Option<String>,
    pub input_device: Option<String>,
    pub output_device: Option<String>,
    /// Whether the one-time virtual-device setup has been completed.
    pub linux_audio_setup_completed: bool,
}

impl Default for Settings {
    fn default() -> (r: Self)
        ensures
            r.keyer_type == KeyerType::Straight,
            r.wpm == 18,
            r.dit_dah_ratio == 3000,
            r.weighting == 0,
            r.swap_paddles == false,
            r.sidetone_frequency == 600,
            r.sidetone_volume == 16384,
            r.local_sidetone_volume == 9830,
            r.sidetone_route == SidetoneRoute::OutputOnly,
            r.mic_volume == 32768,
            r.mix_mode == MixMode::AlwaysMix,
            r.mic_ducking == false,
            r.local_output_device is None,
            r.midi_device is None,
            r.input_device is None,
            r.output_device is None,
            r.linux_audio_setup_completed == false,
    {
        Settings {
            keyer_type: KeyerType::Straight,
            wpm: 18,
            dit_dah_ratio: 3000,
            weighting: 0,
            swap_paddles: false,
            sidetone_frequency: 600,
            sidetone_volume: 16384,
            local_sidetone_volume: 9830,
            sidetone_route: SidetoneRoute::OutputOnly,
            mic_volume: 32768,
            mix_mode: MixMode::AlwaysMix,
            mic_ducking: false,
            local_output_device: None,
            midi_device: None,
            input_device: None,
            output_device: None,
            linux_audio_setup_completed: false,
        }
    }
}

} // verus!
