use vstd::prelude::*;
use crate::byte_order::{le_value, lemma_le_value_bound, u16_at, u32_at, u64_at, u8_at};
use crate::constants::EVENT_HEADER_SIZE;
use crate::errors::Error;

verus! {

/// The fixed-size header in front of every event body.
#[derive(Clone, Copy, Debug, PartialEq, Eq, Structural)]
pub struct EventHeader {
    /// Creation time in seconds since the Unix epoch.
    pub timestamp: u32,
    /// Code of the event's type.
    pub event_type: u8,
    /// Identifier of the server that created the event.
    pub server_id: u32,
    /// Length of the event: header, body and checksum.
    pub event_length: u32,
    /// Position in the log file of the event that follows.
    pub next_event_position: u32,
    /// Event flags.
    pub event_flags: u16,
}

impl EventHeader {
    /// The header that the first nineteen bytes of `bytes` spell.
    pub open spec fn spec_parse(bytes: Seq<u8>) -> EventHeader {
        EventHeader {
            timestamp: le_value(bytes, 0, 4) as u32,
            event_type: bytes[4],
            server_id: le_value(bytes, 5, 4) as u32,
            event_length: le_value(bytes, 9, 4) as u32,
            next_event_position: le_value(bytes, 13, 4) as u32,
            event_flags: le_value(bytes, 17, 2) as u16,
        }
    }

    /// Reads the header from the front of `slice`. Fewer than nineteen bytes
    /// are a protocol failure.
    pub fn parse(slice: &[u8]) -> (r: Result<EventHeader, Error>)
        ensures
            slice@.len() >= EVENT_HEADER_SIZE ==> r == Ok::<EventHeader, Error>(
                Self::spec_parse(slice@),
            ),
            slice@.len() < EVENT_HEADER_SIZE ==> r is Err && r->Err_0.protocol_message() == Some(
                "Unexpected end of the packet"@,
            ),
    {
        if slice.len() < EVENT_HEADER_SIZE {
            return Err(Error::incomplete());
        }
        proof {
            lemma_le_value_bound(slice@, 0);
            lemma_le_value_bound(slice@, 5);
            lemma_le_value_bound(slice@, 9);
            lemma_le_value_bound(slice@, 13);
            lemma_le_value_bound(slice@, 17);
        }
        Ok(
            EventHeader {
                timestamp: u32_at(slice, 0),
                event_type: u8_at(slice, 4),
                server_id: u32_at(slice, 5),
                event_length: u32_at(slice, 9),
                next_event_position: u32_at(slice, 13),
                event_flags: u16_at(slice, 17),
            },
        )
    }
}

} // verus!
