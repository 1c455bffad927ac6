//! Host-side driver logic for a half-duplex firmware-download protocol.
//!
//! The crate models every byte of the command/acknowledgment protocol that a
//! host exchanges with a target device while pushing a boot image and a list
//! of application images over a serial-style byte channel.  The protocol
//! engine is a pure state machine: it decides which bytes to send, which
//! bytes to expect, and how much image payload to request next, while the
//! caller performs the actual channel and file I/O.

pub mod engine;
pub mod laws;
pub mod wire;
