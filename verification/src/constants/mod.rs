use vstd::prelude::*;

pub mod checksum_type;

verus! {

/// Bytes of the header in front of every packet: length and sequence number.
pub const PACKET_HEADER_SIZE: usize = 4;

/// Bytes of the header in front of every event body.
pub const EVENT_HEADER_SIZE: usize = 19;

/// Bytes of the CRC32 checksum behind an event body.
pub const CHECKSUM_SIZE: usize = 4;

/// Largest payload that the three length bytes of a packet header can announce.
pub const MAX_PACKET_LENGTH: usize = 0xFF_FFFF;

} // verus!
