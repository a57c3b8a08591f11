//! Codec for the RoboMaster S1 wire protocol, a DUML/DUSS-style framing
//! format carried over CAN bus streams.
//!
//! The crate covers the frame layout and its two checksums, a scanner that
//! finds one checksum-valid frame in a byte buffer, a per-channel stream
//! reassembler, and typed views over the payloads of a few command families.

pub mod crc;
pub mod wire;
pub mod proto;
pub mod stream;
pub mod address;
pub mod duss;
pub mod commands;
pub mod vbus;
