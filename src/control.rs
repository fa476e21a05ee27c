//! Control bytes of the ASTM E1381 link layer.

use vstd::prelude::*;

verus! {

/// Start of heading.
pub const SOH: u8 = 0x01;

/// Start of text: the first byte of every frame.
pub const STX: u8 = 0x02;

/// End of text: ends the last frame of a message.
pub const ETX: u8 = 0x03;

/// End of transmission: ends a transfer phase.
pub const EOT: u8 = 0x04;

/// Enquiry: asks the peer for the line.
pub const ENQ: u8 = 0x05;

/// Positive acknowledgement.
pub const ACK: u8 = 0x06;

/// Data link escape.
pub const DLE: u8 = 0x10;

/// Negative acknowledgement.
pub const NAK: u8 = 0x15;

/// Synchronous idle.
pub const SYN: u8 = 0x16;

/// End of transmission block: ends an intermediate frame.
pub const ETB: u8 = 0x17;

/// Carriage return: ends a record, and precedes LF at the end of a frame.
pub const CR: u8 = 0x0D;

/// Line feed: the last byte of every frame.
pub const LF: u8 = 0x0A;

} // verus!
