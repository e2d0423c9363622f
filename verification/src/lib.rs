//! Core logic of a local audio-file player.
//!
//! The crate owns the playback controller: the transport state machine
//! (play / pause / stop / track selection), the position-poller tick that
//! turns an elapsed position into a progress signal, wraparound playlist
//! navigation, a clamped volume controller with mute memory, and `MM:SS`
//! duration formatting. Audio decoding, the output device and the user
//! interface live outside the crate and hand it plain values.

pub mod navigator;
pub mod poller;
pub mod timefmt;
pub mod transport;
pub mod volume;
