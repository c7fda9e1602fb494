use vstd::prelude::*;
use vstd::utf8::*;
use crate::byte_order::{le_value, lemma_le_value_bound, u16_at, u8_at};
use crate::constants::checksum_type::ChecksumType;
use crate::constants::EVENT_HEADER_SIZE;
use crate::errors::{DecodeFailure, Error};
use crate::events::event_header::EventHeader;
use crate::text::{cut_at_nul, string_from_utf8, until_nul};

verus! {

/// The first event of every log file: it describes the log's format.
#[derive(Clone, Debug)]
pub struct FormatDescriptionEvent {
    /// Version of the binlog format.
    pub binlog_version: u16,
    /// Version of the server that writes the log.
    pub server_version: String,
    /// Checksum that follows every event body of this log.
    pub checksum_type: ChecksumType,
}

/// What a format description event says, as plain values.
pub struct FormatDescriptionEventView {
    pub binlog_version: u16,
    pub server_version: Seq<char>,
    pub checksum_type: ChecksumType,
}

impl View for FormatDescriptionEvent {
    type V = FormatDescriptionEventView;

    open spec fn view(&self) -> FormatDescriptionEventView {
        FormatDescriptionEventView {
            binlog_version: self.binlog_version,
            server_version: self.server_version@,
            checksum_type: self.checksum_type,
        }
    }
}

/// Offset of the server version in the body.
pub const SERVER_VERSION_OFFSET: usize = 2;

/// Bytes of the server version field, padded with zero bytes.
pub const SERVER_VERSION_SIZE: usize = 50;

/// Offset of the table of post-header lengths, one byte for each event type
/// from code 1 on: behind the binlog version, the server version, the
/// creation time and the header length.
pub const EVENT_TYPES_OFFSET: usize = 2 + 50 + 4 + 1;

/// Offset of the table entry of the format description event itself, whose
/// code is 15. The entry holds the length of this event's body without the
/// checksum code and the checksum.
pub const OWN_LENGTH_OFFSET: usize = EVENT_TYPES_OFFSET + 14;

impl FormatDescriptionEvent {
    /// What the body of a format description event says.
    ///
    /// The checksum code stands behind the declared body length, and only
    /// where the event is longer than that: a server without checksums sends
    /// no code, and the log then has none.
    pub open spec fn spec_parse(body: Seq<u8>, event_length: u32) -> Result<
        FormatDescriptionEventView,
        DecodeFailure,
    > {
        let version = until_nul(body.subrange(2, 52));
        let declared = body[71];
        if body.len() < 72 {
            Err(DecodeFailure::TooShort)
        } else if !valid_utf8(version) {
            Err(DecodeFailure::NotUtf8)
        } else if declared + 19 == event_length {
            Ok(
                FormatDescriptionEventView {
                    binlog_version: le_value(body, 0, 2) as u16,
                    server_version: decode_utf8(version),
                    checksum_type: ChecksumType::NONE,
                },
            )
        } else if body.len() <= declared {
            Err(DecodeFailure::TooShort)
        } else {
            match ChecksumType::spec_from_code(body[declared as int]) {
                Some(checksum_type) => Ok(
                    FormatDescriptionEventView {
                        binlog_version: le_value(body, 0, 2) as u16,
                        server_version: decode_utf8(version),
                        checksum_type,
                    },
                ),
                None => Err(DecodeFailure::UnsupportedChecksum),
            }
        }
    }

    /// Decodes the body of a format description event, whose header is
    /// `header`.
    pub fn parse(body: &[u8], header: &EventHeader) -> (r: Result<FormatDescriptionEvent, Error>)
        ensures
            match Self::spec_parse(body@, header.event_length) {
                Ok(v) => r is Ok && r->Ok_0@ == v,
                Err(f) => r is Err && f.reported_as(r->Err_0),
            },
    {
        if body.len() <= OWN_LENGTH_OFFSET {
            return Err(Error::incomplete());
        }
        let binlog_version = u16_at(body, 0);
        proof {
            lemma_le_value_bound(body@, 0);
        }
        let field = vstd::slice::slice_subrange(
            body,
            SERVER_VERSION_OFFSET,
            SERVER_VERSION_OFFSET + SERVER_VERSION_SIZE,
        );
        let version = vstd::slice::slice_to_vec(cut_at_nul(field));
        let server_version = match string_from_utf8(version) {
            Ok(text) => text,
            Err(e) => {
                return Err(Error::FromUtf8Error(e));
            },
        };
        let declared = u8_at(body, OWN_LENGTH_OFFSET);
        let mut checksum_type = ChecksumType::NONE;
        if declared as u64 + EVENT_HEADER_SIZE as u64 != header.event_length as u64 {
            if body.len() <= declared as usize {
                return Err(Error::incomplete());
            }
            checksum_type = ChecksumType::from_code(u8_at(body, declared as usize))?;
        }
        Ok(FormatDescriptionEvent { binlog_version, server_version, checksum_type })
    }
}

} // verus!
