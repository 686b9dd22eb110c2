//! Verified core of a realtime voice conversation gateway.
//!
//! The library models the per-connection session: the protocol state
//! machine that maps inbound client events to state transitions and an
//! exactly sequenced stream of outbound server events, the commit and
//! response pipelines, and the PCM16 audio framing rules.  Transport,
//! HTTP clients and JSON encoding live outside the library.
use vstd::prelude::*;

pub mod audio;
pub mod commit;
pub mod config;
pub mod events;
pub mod handler;
pub mod text;
pub mod turn;
pub mod laws;
pub mod outside;
pub mod session;

verus! {

/// Samples per second of audio wrapped on commit (the client's declared rate).
pub const INPUT_SAMPLE_RATE: u32 = 24000;

/// Samples per second of audio sent back to the client.
pub const OUTPUT_SAMPLE_RATE: u32 = 16000;

/// Samples in one half-second output frame at 16 kHz.
pub const FRAME_SAMPLES: usize = 8000;

/// Bytes in one frame of the streamed PCM16 output path.
pub const FRAME_BYTES: usize = 3200;

} // verus!
