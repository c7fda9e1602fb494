use vstd::prelude::*;

verus! {

/// `std::io::Error`, carried through as an opaque value.
#[verifier::external_type_specification]
#[verifier::external_body]
pub struct ExIoError(std::io::Error);

/// `std::str::Utf8Error`, carried through as an opaque value.
#[verifier::external_type_specification]
#[verifier::external_body]
pub struct ExUtf8Error(std::str::Utf8Error);

/// `std::string::FromUtf8Error`, carried through as an opaque value.
#[verifier::external_type_specification]
#[verifier::external_body]
pub struct ExFromUtf8Error(std::string::FromUtf8Error);

/// `hex::FromHexError`, carried through as an opaque value.
#[verifier::external_type_specification]
#[verifier::external_body]
pub struct ExFromHexError(hex::FromHexError);

/// `std::num::ParseIntError`, carried through as an opaque value.
#[verifier::external_type_specification]
#[verifier::external_body]
pub struct ExParseIntError(std::num::ParseIntError);

/// Everything that can go wrong in a replication session.
#[derive(Debug)]
pub enum Error {
    /// The transport failed: connect, read or write.
    IoError(std::io::Error),
    /// Bytes borrowed as text were not UTF-8.
    Utf8Error(std::str::Utf8Error),
    /// Bytes taken over as text were not UTF-8.
    FromUtf8Error(std::string::FromUtf8Error),
    /// Text that should have been hexadecimal was not.
    FromHexError(hex::FromHexError),
    /// Text that should have been a number was not.
    ParseIntError(std::num::ParseIntError),
    /// A protocol failure, described in words.
    String(String),
}

impl Error {
    /// The words of a protocol failure; `None` for the other kinds.
    pub open spec fn protocol_message(self) -> Option<Seq<char>> {
        match self {
            Error::String(m) => Some(m@),
            _ => None,
        }
    }

    /// The failure of bytes that end too early.
    pub fn incomplete() -> (e: Error)
        ensures
            e.protocol_message() == Some("Unexpected end of the packet"@),
    {
        Error::protocol("Unexpected end of the packet")
    }

    /// A protocol failure with the given words.
    pub fn protocol(message: &str) -> (e: Error)
        ensures
            e.protocol_message() == Some(message@),
    {
        Error::String(message.to_owned())
    }
}

/// Why bytes of the server could not be taken as what they should be.
pub enum DecodeFailure {
    /// The bytes end before the field that is read.
    TooShort,
    /// A text field is not UTF-8.
    NotUtf8,
    /// A field that should spell a number does not.
    NotANumber,
    /// The checksum code or name is none that this client supports.
    UnsupportedChecksum,
    /// A length is given as NULL.
    NullLength,
    /// The protocol was not kept; the words say how.
    Refused(Seq<char>),
}

impl DecodeFailure {
    /// Whether `e` is the error that reports this failure.
    pub open spec fn reported_as(self, e: Error) -> bool {
        match self {
            DecodeFailure::TooShort => e.protocol_message() == Some("Unexpected end of the packet"@),
            DecodeFailure::NotUtf8 => e is FromUtf8Error,
            DecodeFailure::NotANumber => e is ParseIntError,
            DecodeFailure::UnsupportedChecksum => e.protocol_message() == Some(
                "The master checksum type is not supported"@,
            ),
            DecodeFailure::NullLength => e.protocol_message() == Some(
                "Length encoded integer cannot be NULL."@,
            ),
            DecodeFailure::Refused(words) => e.protocol_message() == Some(words),
        }
    }
}

} // verus!
