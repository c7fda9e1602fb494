use vstd::prelude::*;

verus! {

/// First byte of a packet that brings what was asked for: an event, or the
/// word that a command was carried out.
pub const OK: u8 = 0x00;

/// First byte of a packet that reports an error.
pub const ERROR: u8 = 0xFF;

/// First byte of a packet that ends a part of a result set, or the stream.
pub const END_OF_FILE: u8 = 0xFE;

} // verus!
