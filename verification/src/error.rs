//! The error type shared by the header and record codecs.

use vstd::prelude::*;

verus! {

/// Everything that can go wrong while decoding an `.sdc` byte stream.
#[derive(Clone, Copy, Debug, PartialEq, Eq, Structural)]
pub enum Error {
    /// Fewer bytes were available than a fixed-size field requires.
    /// Distinct from a clean end of stream, which is only recognised
    /// at the very start of a record.
    ShortRead,
    /// The header is malformed: either its declared size is smaller
    /// than the 8 fixed bytes, or the header-information region is
    /// shorter than declared.
    InvalidHeaderInformation,
    /// The given byte cannot be converted to a target type.
    InvalidTargetType(u8),
    /// The header-information bytes are not valid UTF-8.  Not fatal
    /// for the stream; only the text accessor reports it.
    TextDecodingFailure,
}

/// The description each error carries.
pub open spec fn spec_description(e: Error) -> Seq<char> {
    match e {
        Error::ShortRead => "short read"@,
        Error::InvalidHeaderInformation => "invalid header information"@,
        Error::InvalidTargetType(_) => "invalid target type"@,
        Error::TextDecodingFailure => "header information is not valid UTF-8"@,
    }
}

impl Error {
    /// A short human-readable description of the error.
    pub fn description(&self) -> (r: String)
        ensures
            r@ == spec_description(*self),
    {
        let r = match self {
            Error::ShortRead => "short read",
            Error::InvalidHeaderInformation => "invalid header information",
            Error::InvalidTargetType(_) => "invalid target type",
            Error::TextDecodingFailure => "header information is not valid UTF-8",
        };
        r.to_owned()
    }
}

} // verus!
