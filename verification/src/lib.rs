//! Control protocol for a small wirelessly driven toy train.
//!
//! The crate verifies the pure core of the protocol: the checksummed wire
//! framing, the colour and sound encodings, the command payloads, and the
//! decision logic of the connection lifecycle. The transport itself (radio
//! scanning, link I/O) lives outside the library and only hands plain values
//! in and out.

pub mod codec;
pub mod conn;
pub mod color;
pub mod dispatch;
pub mod listener;
pub mod sound;
