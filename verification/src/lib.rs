//! Real-time core of a CW (Morse) keyer companion: sample-accurate sidetone
//! synthesis, mixing with mic ducking, level metering, a bounded capture
//! buffer, the audio-engine command state machine, and an adaptive Morse
//! decoder with its wall-clock timing front-end.
//!
//! All duration arithmetic is exact integer arithmetic; audio samples,
//! envelopes and volumes are fixed-point values on a scale of 32768 to one.

pub mod arith;
pub mod audio;
pub mod capture;
pub mod config;
pub mod cw;
pub mod decoder;
pub mod input;
pub mod linux_audio_setup;
pub mod meter;
pub mod mixer;
pub mod ring;
pub mod sidetone;
pub mod text;
pub mod timing;
