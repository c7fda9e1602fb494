use vstd::prelude::*;
use vstd::string::*;
use vstd::utf8::*;
use crate::byte_order::{le_value, lemma_le_value_bound, u16_at};
use crate::errors::{DecodeFailure, Error};
use crate::responses::response_type;
use crate::text::{decimal_string, decimal_text, string_from_utf8};

verus! {

/// An error that the server reports.
#[derive(Clone, Debug)]
pub struct ErrorPacket {
    /// Code of the error.
    pub error_code: u16,
    /// The error in words.
    pub error_message: String,
    /// SQL state of the error, where the server gives one.
    pub sql_state: Option<String>,
}

/// What an error packet says, as plain values.
pub struct ErrorPacketView {
    pub error_code: u16,
    pub error_message: Seq<char>,
    pub sql_state: Option<Seq<char>>,
}

impl View for ErrorPacket {
    type V = ErrorPacketView;

    open spec fn view(&self) -> ErrorPacketView {
        ErrorPacketView {
            error_code: self.error_code,
            error_message: self.error_message@,
            sql_state: match self.sql_state {
                Some(state) => Some(state@),
                None => None,
            },
        }
    }
}

/// Where the text of an error packet that starts with `#` goes over from
/// the SQL state to the message: behind the mark and five characters, or at
/// the end of a shorter text.
pub open spec fn state_end(text: Seq<char>) -> int {
    if text.len() < 6 {
        text.len() as int
    } else {
        6
    }
}

/// An error packet in words.
pub open spec fn error_text(v: ErrorPacketView) -> Seq<char> {
    "error_code: "@ + decimal_text(v.error_code as nat) + ", sql_state: "@ + (match v.sql_state {
        Some(state) => state,
        None => Seq::<char>::empty(),
    }) + ", error_message: "@ + v.error_message
}

impl ErrorPacket {
    /// What the bytes behind the error mark say: two bytes of error code,
    /// then text. Text that starts with `#` gives the SQL state first.
    pub open spec fn spec_parse(packet: Seq<u8>) -> Result<ErrorPacketView, DecodeFailure> {
        let text = decode_utf8(packet.subrange(2, packet.len() as int));
        if packet.len() < 2 {
            Err(DecodeFailure::TooShort)
        } else if !valid_utf8(packet.subrange(2, packet.len() as int)) {
            Err(DecodeFailure::NotUtf8)
        } else if text.len() > 0 && text[0] == '#' {
            Ok(
                ErrorPacketView {
                    error_code: le_value(packet, 0, 2) as u16,
                    error_message: text.subrange(state_end(text), text.len() as int),
                    sql_state: Some(text.subrange(1, state_end(text))),
                },
            )
        } else {
            Ok(
                ErrorPacketView {
                    error_code: le_value(packet, 0, 2) as u16,
                    error_message: text,
                    sql_state: None,
                },
            )
        }
    }

    /// Decodes the bytes behind the error mark of a packet.
    pub fn parse(packet: &[u8]) -> (r: Result<ErrorPacket, Error>)
        ensures
            match Self::spec_parse(packet@) {
                Ok(v) => r is Ok && r->Ok_0@ == v,
                Err(f) => r is Err && f.reported_as(r->Err_0),
            },
    {
        if packet.len() < 2 {
            return Err(Error::incomplete());
        }
        let error_code = u16_at(packet, 0);
        proof {
            lemma_le_value_bound(packet@, 0);
        }
        let rest = vstd::slice::slice_to_vec(vstd::slice::slice_subrange(packet, 2, packet.len()));
        let text = match string_from_utf8(rest) {
            Ok(text) => text,
            Err(e) => {
                return Err(Error::FromUtf8Error(e));
            },
        };
        let n = text.as_str().unicode_len();
        if n > 0 && text.as_str().get_char(0) == '#' {
            let cut: usize = if n < 6 {
                n
            } else {
                6
            };
            let sql_state = text.as_str().substring_char(1, cut).to_owned();
            let error_message = text.as_str().substring_char(cut, n).to_owned();
            Ok(ErrorPacket { error_code, error_message, sql_state: Some(sql_state) })
        } else {
            Ok(ErrorPacket { error_code, error_message: text, sql_state: None })
        }
    }

    /// The packet in words.
    pub fn text(&self) -> (s: String)
        ensures
            s@ == error_text(self@),
    {
        let mut s = "error_code: ".to_owned();
        s.append(decimal_string(self.error_code as u128).as_str());
        s.append(", sql_state: ");
        match &self.sql_state {
            Some(state) => {
                s.append(state.as_str());
            },
            None => {
                assert(s@ + Seq::<char>::empty() =~= s@);
            },
        }
        s.append(", error_message: ");
        s.append(self.error_message.as_str());
        s
    }
}

/// What a packet says of a request: nothing where the packet is no error
/// packet, else the failure that `message` and the server's error make.
pub open spec fn error_check(packet: Seq<u8>, message: Seq<char>) -> Result<(), DecodeFailure> {
    if packet.len() == 0 {
        Err(DecodeFailure::TooShort)
    } else if packet[0] != response_type::ERROR {
        Ok(())
    } else {
        match ErrorPacket::spec_parse(packet.subrange(1, packet.len() as int)) {
            Ok(v) => Err(DecodeFailure::Refused(message + " "@ + error_text(v))),
            Err(f) => Err(f),
        }
    }
}

/// Fails where `packet` is an error packet, with `message` and the server's
/// error in words. An empty packet fails as well.
pub fn check_error_packet(packet: &[u8], message: &str) -> (r: Result<(), Error>)
    ensures
        match error_check(packet@, message@) {
            Ok(_) => r is Ok,
            Err(f) => r is Err && f.reported_as(r->Err_0),
        },
{
    if packet.len() == 0 {
        return Err(Error::incomplete());
    }
    if packet[0] != response_type::ERROR {
        return Ok(());
    }
    let error = ErrorPacket::parse(vstd::slice::slice_subrange(packet, 1, packet.len()))?;
    let mut words = message.to_owned();
    words.append(" ");
    words.append(error.text().as_str());
    Err(Error::String(words))
}

} // verus!
