use vstd::prelude::*;
use vstd::utf8::*;
use crate::byte_order::{le_value, lemma_le_value_bound, u16_at, u24_at, u64_at};
use crate::errors::{DecodeFailure, Error};
use crate::text::string_from_utf8;

verus! {

/// A row of a result set: the text of each column.
#[derive(Clone, Debug)]
pub struct ResultSetRowPacket {
    pub cells: Vec<String>,
}

/// The texts of `cells`, as plain values.
pub open spec fn texts(cells: Seq<String>) -> Seq<Seq<char>> {
    Seq::new(cells.len(), |i: int| cells[i]@)
}

impl View for ResultSetRowPacket {
    type V = Seq<Seq<char>>;

    open spec fn view(&self) -> Seq<Seq<char>> {
        texts(self.cells@)
    }
}

/// A length-encoded integer at `at`: its value, and the position behind it.
/// A first byte below 0xFB is the value itself; 0xFC, 0xFD and 0xFE announce
/// two, three and eight bytes, least significant first; 0xFB stands for
/// NULL, which is no length.
pub open spec fn length_at(bytes: Seq<u8>, at: int) -> Result<(nat, int), DecodeFailure> {
    if at >= bytes.len() {
        Err(DecodeFailure::TooShort)
    } else if bytes[at] == 0xFB {
        Err(DecodeFailure::NullLength)
    } else if bytes[at] == 0xFC {
        if at + 3 > bytes.len() {
            Err(DecodeFailure::TooShort)
        } else {
            Ok((le_value(bytes, at + 1, 2), at + 3))
        }
    } else if bytes[at] == 0xFD {
        if at + 4 > bytes.len() {
            Err(DecodeFailure::TooShort)
        } else {
            Ok((le_value(bytes, at + 1, 3), at + 4))
        }
    } else if bytes[at] == 0xFE {
        if at + 9 > bytes.len() {
            Err(DecodeFailure::TooShort)
        } else {
            Ok((le_value(bytes, at + 1, 8), at + 9))
        }
    } else {
        Ok((bytes[at] as nat, at + 1))
    }
}

/// A length-encoded text at `at`: the text, and the position behind it.
pub open spec fn text_at(bytes: Seq<u8>, at: int) -> Result<(Seq<char>, int), DecodeFailure> {
    match length_at(bytes, at) {
        Err(f) => Err(f),
        Ok((n, start)) => {
            if start + n > bytes.len() {
                Err(DecodeFailure::TooShort)
            } else if !valid_utf8(bytes.subrange(start, start + n)) {
                Err(DecodeFailure::NotUtf8)
            } else {
                Ok((decode_utf8(bytes.subrange(start, start + n)), start + n))
            }
        },
    }
}

/// The length-encoded texts from `at` to the end of `bytes`.
pub open spec fn cells_from(bytes: Seq<u8>, at: int) -> Result<Seq<Seq<char>>, DecodeFailure>
    decreases bytes.len() - at,
{
    if at >= bytes.len() {
        Ok(Seq::<Seq<char>>::empty())
    } else {
        match text_at(bytes, at) {
            Err(f) => Err(f),
            Ok((text, next)) => match cells_from(bytes, next) {
                Ok(rest) => Ok(seq![text] + rest),
                Err(f) => Err(f),
            },
        }
    }
}

/// `cells_from`, with the texts read so far in front.
pub open spec fn cells_behind(
    read: Seq<Seq<char>>,
    bytes: Seq<u8>,
    at: int,
) -> Result<Seq<Seq<char>>, DecodeFailure> {
    match cells_from(bytes, at) {
        Ok(rest) => Ok(read + rest),
        Err(f) => Err(f),
    }
}

/// Reads the length-encoded integer at `at`.
pub fn read_len_enc_num(bytes: &[u8], at: usize) -> (r: Result<(u64, usize), Error>)
    ensures
        match length_at(bytes@, at as int) {
            Ok((n, next)) => r == Ok::<(u64, usize), Error>((n as u64, next as usize)) && n
                <= u64::MAX && at < next <= bytes@.len(),
            Err(f) => r is Err && f.reported_as(r->Err_0),
        },
{
    let len = bytes.len();
    if at >= len {
        return Err(Error::incomplete());
    }
    proof {
        lemma_le_value_bound(bytes@, at + 1);
    }
    let first = bytes[at];
    if first == 0xFB {
        Err(Error::protocol("Length encoded integer cannot be NULL."))
    } else if first == 0xFC {
        if len - at < 3 {
            return Err(Error::incomplete());
        }
        Ok((u16_at(bytes, at + 1) as u64, at + 3))
    } else if first == 0xFD {
        if len - at < 4 {
            return Err(Error::incomplete());
        }
        Ok((u24_at(bytes, at + 1) as u64, at + 4))
    } else if first == 0xFE {
        if len - at < 9 {
            return Err(Error::incomplete());
        }
        Ok((u64_at(bytes, at + 1), at + 9))
    } else {
        Ok((first as u64, at + 1))
    }
}

/// Reads the length-encoded text at `at`.
pub fn read_len_enc_str(bytes: &[u8], at: usize) -> (r: Result<(String, usize), Error>)
    ensures
        match text_at(bytes@, at as int) {
            Ok((text, next)) => r is Ok && r->Ok_0.0@ == text && r->Ok_0.1 == next && at < next
                <= bytes@.len(),
            Err(f) => r is Err && f.reported_as(r->Err_0),
        },
{
    let (n, start) = read_len_enc_num(bytes, at)?;
    let len = bytes.len();
    if n > (len - start) as u64 {
        return Err(Error::incomplete());
    }
    let end = start + n as usize;
    let field = vstd::slice::slice_to_vec(vstd::slice::slice_subrange(bytes, start, end));
    match string_from_utf8(field) {
        Ok(text) => Ok((text, end)),
        Err(e) => Err(Error::FromUtf8Error(e)),
    }
}

impl ResultSetRowPacket {
    /// What a row packet says: one length-encoded text after the other, to
    /// the end of the packet.
    pub open spec fn spec_parse(packet: Seq<u8>) -> Result<Seq<Seq<char>>, DecodeFailure> {
        cells_from(packet, 0)
    }

    /// Decodes a row packet.
    pub fn parse(packet: &[u8]) -> (r: Result<ResultSetRowPacket, Error>)
        ensures
            match Self::spec_parse(packet@) {
                Ok(v) => r is Ok && r->Ok_0@ == v,
                Err(f) => r is Err && f.reported_as(r->Err_0),
            },
    {
        let mut cells: Vec<String> = Vec::new();
        let mut at: usize = 0;
        assert(texts(cells@) + cells_from(packet@, 0)->Ok_0 =~= cells_from(packet@, 0)->Ok_0);
        while at < packet.len()
            invariant
                0 <= at <= packet@.len(),
                cells_from(packet@, 0) == cells_behind(texts(cells@), packet@, at as int),
            decreases packet@.len() - at,
        {
            let ghost read = texts(cells@);
            match read_len_enc_str(packet, at) {
                Ok((text, next)) => {
                    proof {
                        let rest = cells_from(packet@, next as int);
                        if rest is Ok {
                            assert(read + (seq![text@] + rest->Ok_0) =~= read.push(text@)
                                + rest->Ok_0);
                        }
                        assert(texts(cells@.push(text)) =~= read.push(text@));
                    }
                    cells.push(text);
                    at = next;
                },
                Err(e) => {
                    return Err(e);
                },
            }
        }
        proof {
            assert(texts(cells@) + Seq::<Seq<char>>::empty() =~= texts(cells@));
        }
        Ok(ResultSetRowPacket { cells })
    }
}

} // verus!
