//! Build the bytes of a new `.sdc` stream.

use vstd::prelude::*;

use crate::codec::encode_header;
use crate::codec::encode_record;
use crate::codec::spec_header_bytes;
use crate::codec::spec_record_bytes;
use crate::error::Error;
use crate::point::Point;

verus! {

/// The version a fresh writer stamps on its stream.
pub const WRITER_VERSION_MAJOR: u16 = 5;

/// The version a fresh writer stamps on its stream.
pub const WRITER_VERSION_MINOR: u16 = 0;

/// An `.sdc` writer.
///
/// Construction encodes the fixed 8-byte header for version 5.0, and
/// each `write_point` call appends exactly one encoded record, in call
/// order.  The accumulated bytes are the stream; handing them to
/// storage is the caller's business.
#[derive(Debug)]
pub struct Writer {
    bytes: Vec<u8>,
}

impl Writer {
    /// The bytes of the stream written so far.
    pub closed spec fn spec_bytes(&self) -> Seq<u8> {
        self.bytes@
    }

    /// Creates a new writer, with the version 5.0 header already
    /// encoded and the stream positioned for records.
    pub fn new() -> (r: Writer)
        ensures
            r.spec_bytes() == spec_header_bytes(5, 0),
    {
        let mut bytes: Vec<u8> = Vec::new();
        encode_header(&mut bytes, WRITER_VERSION_MAJOR, WRITER_VERSION_MINOR);
        Writer { bytes }
    }

    /// Appends one encoded point record to the stream.  Under version
    /// 5.0 no optional field goes on the wire, so every point can be
    /// written and the call always succeeds.
    pub fn write_point(&mut self, point: &Point) -> (r: Result<(), Error>)
        ensures
            r == Ok::<(), Error>(()),
            final(self).spec_bytes() == old(self).spec_bytes() + spec_record_bytes(
                *point,
                5,
                0,
            ),
    {
        encode_record(&mut self.bytes, point, WRITER_VERSION_MAJOR, WRITER_VERSION_MINOR);
        Ok(())
    }

    /// A borrowed view of the stream's bytes.
    pub fn as_bytes(&self) -> (r: &Vec<u8>)
        ensures
            r@ == self.spec_bytes(),
    {
        &self.bytes
    }

    /// Consumes the writer and hands the finished stream over.
    pub fn into_bytes(self) -> (r: Vec<u8>)
        ensures
            r@ == self.spec_bytes(),
    {
        self.bytes
    }
}

} // verus!
