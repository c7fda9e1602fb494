use vstd::prelude::*;
use crate::constants::checksum_type::ChecksumType;
use crate::errors::{DecodeFailure, Error};
use crate::events::binlog_event::{BinlogEvent, BinlogEventView};
use crate::events::event_header::EventHeader;
use crate::events::event_type::EventType;
use crate::events::format_description_event::FormatDescriptionEvent;
use crate::events::rotate_event::RotateEvent;

verus! {

/// Decodes event bodies. It remembers the checksum mode of the log, which
/// says how many bytes at the end of every body are checksum.
pub struct EventParser {
    /// Checksum algorithm used in the binlog file.
    checksum_type: ChecksumType,
}

/// The part of `bytes` in front of the checksum that `mode` appends.
pub open spec fn payload(mode: ChecksumType, bytes: Seq<u8>) -> Seq<u8> {
    bytes.subrange(0, bytes.len() - mode.spec_trailer_len())
}

/// The event that `bytes` spell behind `header`, read in checksum mode
/// `mode`. The checksum is cut off and not verified.
pub open spec fn decode(mode: ChecksumType, header: EventHeader, bytes: Seq<u8>) -> Result<
    BinlogEventView,
    DecodeFailure,
> {
    if bytes.len() < mode.spec_trailer_len() {
        Err(DecodeFailure::TooShort)
    } else if EventType::FORMAT_DESCRIPTION_EVENT.spec_code() == Some(header.event_type) {
        match FormatDescriptionEvent::spec_parse(payload(mode, bytes), header.event_length) {
            Ok(v) => Ok(BinlogEventView::FormatDescription(v)),
            Err(f) => Err(f),
        }
    } else if EventType::ROTATE_EVENT.spec_code() == Some(header.event_type) {
        match RotateEvent::spec_parse(payload(mode, bytes)) {
            Ok(v) => Ok(BinlogEventView::Rotate(v)),
            Err(f) => Err(f),
        }
    } else {
        Ok(BinlogEventView::Unknown)
    }
}

/// The checksum mode after an event was decoded in mode `mode`: that of a
/// format description event, else `mode` unchanged.
pub open spec fn mode_after(
    mode: ChecksumType,
    decoded: Result<BinlogEventView, DecodeFailure>,
) -> ChecksumType {
    match decoded {
        Ok(BinlogEventView::FormatDescription(v)) => v.checksum_type,
        _ => mode,
    }
}

impl EventParser {
    /// The checksum mode in which the next event is read.
    pub closed spec fn mode(&self) -> ChecksumType {
        self.checksum_type
    }

    /// A parser for a log without checksums.
    pub fn new() -> (p: EventParser)
        ensures
            p.mode() == ChecksumType::NONE,
    {
        Self { checksum_type: ChecksumType::NONE }
    }

    /// A parser that starts in the checksum mode that the session negotiated.
    pub fn with_checksum(checksum_type: ChecksumType) -> (p: EventParser)
        ensures
            p.mode() == checksum_type,
    {
        Self { checksum_type }
    }

    /// The checksum mode in which the next event is read.
    pub fn checksum_type(&self) -> (mode: ChecksumType)
        ensures
            mode == self.mode(),
    {
        self.checksum_type
    }

    /// Decodes the event body `slice` that follows `header`.
    ///
    /// The result depends on the checksum mode, the header and the bytes
    /// alone. The mode changes only when a format description event was
    /// decoded, to the mode that the event declares.
    pub fn parse_event(&mut self, header: &EventHeader, slice: &[u8]) -> (r: Result<
        BinlogEvent,
        Error,
    >)
        ensures
            match decode(old(self).mode(), *header, slice@) {
                Ok(v) => r is Ok && r->Ok_0@ == v,
                Err(f) => r is Err && f.reported_as(r->Err_0),
            },
            final(self).mode() == mode_after(
                old(self).mode(),
                decode(old(self).mode(), *header, slice@),
            ),
    {
        let trailer = self.checksum_type.trailer_len();
        if slice.len() < trailer {
            return Err(Error::incomplete());
        }
        let body = vstd::slice::slice_subrange(slice, 0, slice.len() - trailer);
        match EventType::from_code(header.event_type) {
            EventType::FORMAT_DESCRIPTION_EVENT => {
                let event = FormatDescriptionEvent::parse(body, header)?;
                self.checksum_type = event.checksum_type;
                Ok(BinlogEvent::FormatDescriptionEvent(event))
            },
            EventType::ROTATE_EVENT => {
                let event = RotateEvent::parse(body)?;
                Ok(BinlogEvent::RotateEvent(event))
            },
            _ => Ok(BinlogEvent::UnknownEvent),
        }
    }
}

/// The checksum mode moves only when a format description event was
/// decoded; any other outcome, a failure too, leaves it as it was.
pub proof fn lemma_mode_moves_with_format_description(
    mode: ChecksumType,
    header: EventHeader,
    bytes: Seq<u8>,
)
    ensures
        !(decode(mode, header, bytes) matches Ok(BinlogEventView::FormatDescription(_)))
            ==> mode_after(mode, decode(mode, header, bytes)) == mode,
        decode(mode, header, bytes) matches Ok(BinlogEventView::FormatDescription(v))
            ==> mode_after(mode, decode(mode, header, bytes)) == v.checksum_type,
{
}

/// Decoding reads the payload and nothing behind it: all of the body
/// without checksums, all but the last four bytes with CRC32. Two bodies
/// that differ in the checksum alone decode alike, and a body shorter than
/// the checksum is refused.
pub proof fn lemma_decode_reads_payload(
    mode: ChecksumType,
    header: EventHeader,
    a: Seq<u8>,
    b: Seq<u8>,
)
    ensures
        mode == ChecksumType::NONE ==> payload(mode, a) == a,
        mode == ChecksumType::CRC32 && a.len() >= 4 ==> payload(mode, a).len() == a.len() - 4,
        mode == ChecksumType::CRC32 && a.len() < 4 ==> decode(mode, header, a) == Err::<
            BinlogEventView,
            DecodeFailure,
        >(DecodeFailure::TooShort),
        a.len() >= mode.spec_trailer_len() && b.len() >= mode.spec_trailer_len() && payload(
            mode,
            a,
        ) == payload(mode, b) ==> decode(mode, header, a) == decode(mode, header, b),
{
    assert(a.subrange(0, a.len() as int) =~= a);
}

} // verus!
