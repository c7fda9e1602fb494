use vstd::prelude::*;
use vstd::utf8::*;
use crate::byte_order::{le_value, lemma_le_value_bound, u16_at, u32_at, u64_at, u8_at};
use crate::errors::{DecodeFailure, Error};
use crate::text::string_from_utf8;

verus! {

/// The log switches to another file.
#[derive(Clone, Debug)]
pub struct RotateEvent {
    /// Name of the log file that follows.
    pub binlog_filename: String,
    /// Position in that file of its first event.
    pub binlog_position: u64,
}

/// What a rotate event says, as plain values.
pub struct RotateEventView {
    pub binlog_filename: Seq<char>,
    pub binlog_position: u64,
}

impl View for RotateEvent {
    type V = RotateEventView;

    open spec fn view(&self) -> RotateEventView {
        RotateEventView {
            binlog_filename: self.binlog_filename@,
            binlog_position: self.binlog_position,
        }
    }
}

impl RotateEvent {
    /// What the body of a rotate event says: eight bytes of position, then
    /// the file name up to the end of the body.
    pub open spec fn spec_parse(body: Seq<u8>) -> Result<RotateEventView, DecodeFailure> {
        if body.len() < 8 {
            Err(DecodeFailure::TooShort)
        } else if !valid_utf8(body.subrange(8, body.len() as int)) {
            Err(DecodeFailure::NotUtf8)
        } else {
            Ok(
                RotateEventView {
                    binlog_filename: decode_utf8(body.subrange(8, body.len() as int)),
                    binlog_position: le_value(body, 0, 8) as u64,
                },
            )
        }
    }

    /// Decodes the body of a rotate event.
    pub fn parse(body: &[u8]) -> (r: Result<RotateEvent, Error>)
        ensures
            match Self::spec_parse(body@) {
                Ok(v) => r is Ok && r->Ok_0@ == v,
                Err(f) => r is Err && f.reported_as(r->Err_0),
            },
    {
        if body.len() < 8 {
            return Err(Error::incomplete());
        }
        let binlog_position = u64_at(body, 0);
        proof {
            lemma_le_value_bound(body@, 0);
        }
        let name = vstd::slice::slice_to_vec(vstd::slice::slice_subrange(body, 8, body.len()));
        match string_from_utf8(name) {
            Ok(binlog_filename) => Ok(RotateEvent { binlog_filename, binlog_position }),
            Err(e) => Err(Error::FromUtf8Error(e)),
        }
    }
}

} // verus!
