//! Streaming WAV playback pipeline: container-header parsing, hardware
//! feasibility checking, and the bounded-memory chunked transfer loop that
//! moves PCM bytes from a block-storage source to a real-time audio sink.

pub mod header;
pub mod policy;
pub mod schedule;
pub mod engine;
