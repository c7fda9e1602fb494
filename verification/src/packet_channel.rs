use vstd::prelude::*;
use crate::byte_order::{le_byte, le_value, lemma_le_value_bound, u24_at, write_u24_le};
use crate::constants::{MAX_PACKET_LENGTH, PACKET_HEADER_SIZE};
use crate::errors::Error;

verus! {

/// The header of a packet of `length` payload bytes with sequence number
/// `seq_num`: the length in three bytes, least significant first, then the
/// sequence number.
pub open spec fn header_bytes(length: nat, seq_num: u8) -> Seq<u8> {
    seq![le_byte(length, 0), le_byte(length, 1), le_byte(length, 2), seq_num]
}

/// Reads a packet header: the length of the payload that follows, and the
/// sequence number, which is handed on unchecked.
pub fn read_packet_header(header: &[u8; 4]) -> (r: (usize, u8))
    ensures
        r.0 == le_value(header@, 0, 3),
        r.0 <= MAX_PACKET_LENGTH,
        r.1 == header@[3],
{
    let bytes = header.as_slice();
    proof {
        lemma_le_value_bound(bytes@, 0);
    }
    let packet_size = u24_at(bytes, 0);
    let seq_num = bytes[3];
    (packet_size as usize, seq_num)
}

/// The header for a payload of `length` bytes. A payload that three bytes
/// cannot announce is refused.
pub fn packet_header(length: usize, seq_num: u8) -> (r: Result<[u8; 4], Error>)
    ensures
        length <= MAX_PACKET_LENGTH ==> r is Ok && r->Ok_0@ == header_bytes(length as nat, seq_num),
        length > MAX_PACKET_LENGTH ==> r is Err && r->Err_0.protocol_message() == Some(
            "The packet is too long"@,
        ),
{
    if length > MAX_PACKET_LENGTH {
        return Err(Error::protocol("The packet is too long"));
    }
    let low = write_u24_le(length as u32);
    let header = [low[0], low[1], low[2], seq_num];
    assert(header@ =~= header_bytes(length as nat, seq_num));
    Ok(header)
}

/// The bytes that send `packet` with sequence number `seq_num`: the header,
/// then the payload, to be written as one.
pub fn write_packet(packet: &[u8], seq_num: u8) -> (r: Result<Vec<u8>, Error>)
    ensures
        packet@.len() <= MAX_PACKET_LENGTH ==> r is Ok && r->Ok_0@ == header_bytes(
            packet@.len(),
            seq_num,
        ) + packet@,
        packet@.len() > MAX_PACKET_LENGTH ==> r is Err && r->Err_0.protocol_message() == Some(
            "The packet is too long"@,
        ),
{
    let header = packet_header(packet.len(), seq_num)?;
    let mut bytes: Vec<u8> = Vec::with_capacity(PACKET_HEADER_SIZE + packet.len());
    bytes.extend_from_slice(header.as_slice());
    bytes.extend_from_slice(packet);
    Ok(bytes)
}

/// A header says of itself what it was made from.
pub proof fn lemma_header_round_trip(length: nat, seq_num: u8)
    requires
        length <= MAX_PACKET_LENGTH,
    ensures
        header_bytes(length, seq_num).len() == PACKET_HEADER_SIZE,
        le_value(header_bytes(length, seq_num), 0, 3) == length,
        header_bytes(length, seq_num)[3] == seq_num,
{
    reveal_with_fuel(le_value, 4);
    reveal_with_fuel(le_byte, 3);
}

} // verus!
