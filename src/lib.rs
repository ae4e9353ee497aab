//! Plays jingles on a Raspberry Pi: note names are resolved to frequencies,
//! a jingle is turned into a sequence of tones and rests, and each tone is
//! rendered either as a duty-cycle square wave on a GPIO pin or as a sampled
//! waveform written to a 12-bit DAC.
//!
//! All frequencies are carried in hundredths of a hertz and all times in
//! whole milliseconds or microseconds.
pub mod audio_out;
pub mod clock;
pub mod config;
pub mod file_reader;
pub mod notes;
pub mod waveform;
