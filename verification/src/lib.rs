//! Core of a multi-device audio playback engine.
//!
//! The crate holds the decisions of the engine and leaves the talking to the
//! audio hardware to its caller: it derives device identifiers, selects the
//! track to decode and assembles the decoded frames, adapts PCM to a device's
//! rate and channel layout, sequences the start of one stream per device and
//! fills the chunks that a running stream asks for.
//!
//! Samples are handled as opaque `Copy` values of a caller-chosen type: the
//! engine moves and duplicates them and never computes on them.

pub mod channels;
pub mod decode;
pub mod device;
pub mod engine;
pub mod resample;
pub mod session;
pub mod stream;
