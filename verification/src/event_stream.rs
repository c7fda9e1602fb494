use vstd::prelude::*;
use crate::constants::checksum_type::ChecksumType;
use crate::constants::EVENT_HEADER_SIZE;
use crate::errors::{DecodeFailure, Error};
use crate::events::binlog_event::{BinlogEvent, BinlogEventView};
use crate::events::event_header::EventHeader;
use crate::events::event_parser::{decode, mode_after, EventParser};
use crate::responses::error_packet::{check_error_packet, error_check};
use crate::responses::response_type;

verus! {

/// One item of the event stream, and whether the stream ends with it.
#[derive(Debug)]
pub struct StreamItem {
    /// The event with its header, or the failure to report.
    pub item: Result<(EventHeader, BinlogEvent), Error>,
    /// Whether no further packet is to be read.
    pub last: bool,
}

/// Whether `packet` carries an event with a whole header.
pub open spec fn carries_event(packet: Seq<u8>) -> bool {
    packet.len() > EVENT_HEADER_SIZE && packet[0] == response_type::OK
}

/// The header of the event that `packet` carries.
pub open spec fn carried_header(packet: Seq<u8>) -> EventHeader {
    EventHeader::spec_parse(packet.subrange(1, packet.len() as int))
}

/// The body of the event that `packet` carries.
pub open spec fn carried_body(packet: Seq<u8>) -> Seq<u8> {
    packet.subrange(1 + EVENT_HEADER_SIZE as int, packet.len() as int)
}

/// What a packet of the stream brings in checksum mode `mode`: by its first
/// byte an event, the server's error, the end of the stream, or nothing
/// that this client knows.
pub open spec fn stream_outcome(mode: ChecksumType, packet: Seq<u8>) -> Result<
    (EventHeader, BinlogEventView),
    DecodeFailure,
> {
    if packet.len() == 0 {
        Err(DecodeFailure::Refused("Unknown network stream status"@))
    } else if packet[0] == response_type::OK {
        if !carries_event(packet) {
            Err(DecodeFailure::TooShort)
        } else {
            match decode(mode, carried_header(packet), carried_body(packet)) {
                Ok(v) => Ok((carried_header(packet), v)),
                Err(f) => Err(f),
            }
        }
    } else if packet[0] == response_type::ERROR {
        Err(error_check(packet, "Event stream error."@)->Err_0)
    } else if packet[0] == response_type::END_OF_FILE {
        Err(DecodeFailure::Refused("End of file reached"@))
    } else {
        Err(DecodeFailure::Refused("Unknown network stream status"@))
    }
}

/// Whether the stream ends with `packet`: only the end marker ends it.
pub open spec fn ends_stream(packet: Seq<u8>) -> bool {
    packet.len() > 0 && packet[0] == response_type::END_OF_FILE
}

/// The checksum mode behind `packet`.
pub open spec fn mode_behind(mode: ChecksumType, packet: Seq<u8>) -> ChecksumType {
    if carries_event(packet) {
        mode_after(mode, decode(mode, carried_header(packet), carried_body(packet)))
    } else {
        mode
    }
}

/// Turns one packet of the stream into the item to hand to the consumer.
///
/// Every failure becomes an item. Only the end marker ends the stream: an
/// error of the server, an unknown first byte and an event that cannot be
/// decoded are reported, and reading may go on.
pub fn read_stream_packet(parser: &mut EventParser, packet: &[u8]) -> (r: StreamItem)
    ensures
        match stream_outcome(old(parser).mode(), packet@) {
            Ok((header, v)) => r.item is Ok && r.item->Ok_0.0 == header && r.item->Ok_0.1@ == v,
            Err(f) => r.item is Err && f.reported_as(r.item->Err_0),
        },
        r.last == ends_stream(packet@),
        final(parser).mode() == mode_behind(old(parser).mode(), packet@),
{
    if packet.len() == 0 {
        return StreamItem {
            item: Err(Error::protocol("Unknown network stream status")),
            last: false,
        };
    }
    let status = packet[0];
    if status == response_type::OK {
        let item = read_event(parser, packet);
        StreamItem { item, last: false }
    } else if status == response_type::ERROR {
        match check_error_packet(packet, "Event stream error.") {
            Ok(_) => StreamItem { item: Err(Error::incomplete()), last: false },
            Err(e) => StreamItem { item: Err(e), last: false },
        }
    } else if status == response_type::END_OF_FILE {
        StreamItem { item: Err(Error::protocol("End of file reached")), last: true }
    } else {
        StreamItem { item: Err(Error::protocol("Unknown network stream status")), last: false }
    }
}

/// Reads the event of a packet whose first byte announces one.
fn read_event(parser: &mut EventParser, packet: &[u8]) -> (r: Result<(EventHeader, BinlogEvent), Error>)
    requires
        packet@.len() > 0,
        packet@[0] == response_type::OK,
    ensures
        match stream_outcome(old(parser).mode(), packet@) {
            Ok((header, v)) => r is Ok && r->Ok_0.0 == header && r->Ok_0.1@ == v,
            Err(f) => r is Err && f.reported_as(r->Err_0),
        },
        final(parser).mode() == mode_behind(old(parser).mode(), packet@),
{
    let len = packet.len();
    let header = EventHeader::parse(vstd::slice::slice_subrange(packet, 1, len))?;
    let body = vstd::slice::slice_subrange(packet, 1 + EVENT_HEADER_SIZE, len);
    let event = parser.parse_event(&header, body)?;
    Ok((header, event))
}

/// The item that reports a failure of the transport. The stream ends with
/// it.
pub fn transport_failure(error: std::io::Error) -> (r: StreamItem)
    ensures
        r.item == Err::<(EventHeader, BinlogEvent), Error>(Error::IoError(error)),
        r.last,
{
    StreamItem { item: Err(Error::IoError(error)), last: true }
}

} // verus!
