use vstd::prelude::*;
use byteorder::ByteOrder;
use byteorder::LittleEndian;

verus! {

/// The number that `width` bytes of `bytes`, from `at` on, spell in
/// little-endian order: the first byte counts least.
pub open spec fn le_value(bytes: Seq<u8>, at: int, width: nat) -> nat
    decreases width,
{
    if width == 0 {
        0
    } else {
        bytes[at] as nat + 256 * le_value(bytes, at + 1, (width - 1) as nat)
    }
}

/// The byte of `n` at little-endian position `index`.
pub open spec fn le_byte(n: nat, index: nat) -> u8
    decreases index,
{
    if index == 0 {
        (n % 256) as u8
    } else {
        le_byte(n / 256, (index - 1) as nat)
    }
}

/// `byteorder::LittleEndian::read_u16`: the first two bytes of `buf`, the
/// first one counting least.
#[verifier::external_body]
pub(crate) fn read_u16_le(buf: &[u8]) -> (r: u16)
    requires
        buf@.len() >= 2,
    ensures
        r as nat == le_value(buf@, 0, 2),
{
    LittleEndian::read_u16(buf)
}

/// `byteorder::LittleEndian::read_u24`: the first three bytes of `buf`, the
/// first one counting least.
#[verifier::external_body]
pub(crate) fn read_u24_le(buf: &[u8]) -> (r: u32)
    requires
        buf@.len() >= 3,
    ensures
        r as nat == le_value(buf@, 0, 3),
{
    LittleEndian::read_u24(buf)
}

/// `byteorder::LittleEndian::read_u32`: the first four bytes of `buf`, the
/// first one counting least.
#[verifier::external_body]
pub(crate) fn read_u32_le(buf: &[u8]) -> (r: u32)
    requires
        buf@.len() >= 4,
    ensures
        r as nat == le_value(buf@, 0, 4),
{
    LittleEndian::read_u32(buf)
}

/// `byteorder::LittleEndian::read_u64`: the first eight bytes of `buf`, the
/// first one counting least.
#[verifier::external_body]
pub(crate) fn read_u64_le(buf: &[u8]) -> (r: u64)
    requires
        buf@.len() >= 8,
    ensures
        r as nat == le_value(buf@, 0, 8),
{
    LittleEndian::read_u64(buf)
}

/// `byteorder::LittleEndian::write_u24`: the three low bytes of `n`, least
/// significant first. The call refuses a number of more than 24 bits.
#[verifier::external_body]
pub(crate) fn write_u24_le(n: u32) -> (r: [u8; 3])
    requires
        n <= 0xFF_FFFF,
    ensures
        r@ == seq![le_byte(n as nat, 0), le_byte(n as nat, 1), le_byte(n as nat, 2)],
{
    let mut buf = [0u8; 3];
    LittleEndian::write_u24(&mut buf, n);
    buf
}

/// The byte at `at`.
pub fn u8_at(bytes: &[u8], at: usize) -> (r: u8)
    requires
        at < bytes@.len(),
    ensures
        r == bytes@[at as int],
        r as nat == le_value(bytes@, at as int, 1),
{
    proof {
        reveal_with_fuel(le_value, 2);
    }
    bytes[at]
}

/// The two bytes from `at` on, as a little-endian number.
pub fn u16_at(bytes: &[u8], at: usize) -> (r: u16)
    requires
        at + 2 <= bytes@.len(),
    ensures
        r as nat == le_value(bytes@, at as int, 2),
{
    let len = bytes.len();
    assert(at + 2 <= len);
    let part = vstd::slice::slice_subrange(bytes, at, at + 2);
    proof {
        reveal_with_fuel(le_value, 3);
    }
    read_u16_le(part)
}

/// The three bytes from `at` on, as a little-endian number.
pub fn u24_at(bytes: &[u8], at: usize) -> (r: u32)
    requires
        at + 3 <= bytes@.len(),
    ensures
        r as nat == le_value(bytes@, at as int, 3),
{
    let len = bytes.len();
    assert(at + 3 <= len);
    let part = vstd::slice::slice_subrange(bytes, at, at + 3);
    proof {
        reveal_with_fuel(le_value, 4);
    }
    read_u24_le(part)
}

/// The four bytes from `at` on, as a little-endian number.
pub fn u32_at(bytes: &[u8], at: usize) -> (r: u32)
    requires
        at + 4 <= bytes@.len(),
    ensures
        r as nat == le_value(bytes@, at as int, 4),
{
    let len = bytes.len();
    assert(at + 4 <= len);
    let part = vstd::slice::slice_subrange(bytes, at, at + 4);
    proof {
        reveal_with_fuel(le_value, 5);
    }
    read_u32_le(part)
}

/// The eight bytes from `at` on, as a little-endian number.
pub fn u64_at(bytes: &[u8], at: usize) -> (r: u64)
    requires
        at + 8 <= bytes@.len(),
    ensures
        r as nat == le_value(bytes@, at as int, 8),
{
    let len = bytes.len();
    assert(at + 8 <= len);
    let part = vstd::slice::slice_subrange(bytes, at, at + 8);
    proof {
        reveal_with_fuel(le_value, 9);
    }
    read_u64_le(part)
}

/// A little-endian value of `width` bytes is below `256^width`; stated for
/// the widths that the protocol uses.
pub proof fn lemma_le_value_bound(bytes: Seq<u8>, at: int)
    ensures
        le_value(bytes, at, 1) <= 0xFF,
        le_value(bytes, at, 2) <= 0xFFFF,
        le_value(bytes, at, 3) <= 0xFF_FFFF,
        le_value(bytes, at, 4) <= 0xFFFF_FFFF,
        le_value(bytes, at, 8) <= 0xFFFF_FFFF_FFFF_FFFF,
{
    reveal_with_fuel(le_value, 9);
}

} // verus!
