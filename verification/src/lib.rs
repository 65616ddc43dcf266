//! Codec for the synchronisation subset of MIDI carried over RTP: MIDI Time
//! Code quarter and full frames, and the MIDI Machine Control transport
//! commands, framed by a one-byte payload header.
pub mod error;
pub mod ffi;
pub mod header;
pub mod midi;
pub mod mtc;
pub mod netsync;

pub use error::Error;
pub use std::result::Result;
