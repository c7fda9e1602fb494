use vstd::prelude::*;
use crate::constants::CHECKSUM_SIZE;
use crate::errors::Error;
use crate::text::text_equals;

verus! {

/// Checksum type used in a binlog file.
#[derive(Clone, Copy, Debug, PartialEq, Eq, Structural)]
pub enum ChecksumType {
    /// Checksum is disabled.
    NONE,
    /// CRC32 checksum.
    CRC32,
}

impl ChecksumType {
    /// The type that a code byte of a format description event stands for.
    pub open spec fn spec_from_code(code: u8) -> Option<ChecksumType> {
        if code == 0 {
            Some(ChecksumType::NONE)
        } else if code == 1 {
            Some(ChecksumType::CRC32)
        } else {
            None
        }
    }

    /// The code byte of a checksum type.
    pub open spec fn spec_code(self) -> u8 {
        match self {
            ChecksumType::NONE => 0,
            ChecksumType::CRC32 => 1,
        }
    }

    /// The number of bytes that this type appends to every event body.
    pub open spec fn spec_trailer_len(self) -> nat {
        match self {
            ChecksumType::NONE => 0,
            ChecksumType::CRC32 => 4,
        }
    }

    /// Maps a code byte to its checksum type; any code but 0 and 1 is refused.
    pub fn from_code(code: u8) -> (r: Result<ChecksumType, Error>)
        ensures
            match Self::spec_from_code(code) {
                Some(t) => r == Ok::<ChecksumType, Error>(t),
                None => r is Err && r->Err_0.protocol_message() == Some(
                    "The master checksum type is not supported"@,
                ),
            },
    {
        if code == 0 {
            Ok(ChecksumType::NONE)
        } else if code == 1 {
            Ok(ChecksumType::CRC32)
        } else {
            Err(Error::protocol("The master checksum type is not supported"))
        }
    }

    /// The type that the server's name for it stands for.
    pub open spec fn spec_from_name(name: Seq<char>) -> Option<ChecksumType> {
        if name == "NONE"@ {
            Some(ChecksumType::NONE)
        } else if name == "CRC32"@ {
            Some(ChecksumType::CRC32)
        } else {
            None
        }
    }

    /// Maps the value of the server's checksum variable to its checksum
    /// type; any name but `NONE` and `CRC32` is refused.
    pub fn from_name(name: &String) -> (r: Result<ChecksumType, Error>)
        ensures
            match Self::spec_from_name(name@) {
                Some(t) => r == Ok::<ChecksumType, Error>(t),
                None => r is Err && r->Err_0.protocol_message() == Some(
                    "The master checksum type is not supported"@,
                ),
            },
    {
        if text_equals(name, "NONE") {
            Ok(ChecksumType::NONE)
        } else if text_equals(name, "CRC32") {
            Ok(ChecksumType::CRC32)
        } else {
            Err(Error::protocol("The master checksum type is not supported"))
        }
    }

    /// The code byte of this type.
    pub fn code(&self) -> (c: u8)
        ensures
            c == self.spec_code(),
            Self::spec_from_code(c) == Some(*self),
    {
        match self {
            ChecksumType::NONE => 0,
            ChecksumType::CRC32 => 1,
        }
    }

    /// The number of bytes that this type appends to every event body.
    pub fn trailer_len(&self) -> (n: usize)
        ensures
            n == self.spec_trailer_len(),
    {
        match self {
            ChecksumType::NONE => 0,
            ChecksumType::CRC32 => CHECKSUM_SIZE,
        }
    }
}

} // verus!
