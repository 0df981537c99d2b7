//! `.sdc` file management: a thin alias for the stream writer.

use vstd::prelude::*;

use crate::codec::spec_header_bytes;
use crate::codec::spec_record_bytes;
use crate::error::Error;
use crate::point::Point;
use crate::writer::Writer;

verus! {

/// An `.sdc` file under construction.  It accumulates the same bytes a
/// `Writer` does: the fixed version 5.0 header, then one record per
/// written point, in call order.
#[derive(Debug)]
pub struct File {
    writer: Writer,
}

impl File {
    /// The bytes of the file written so far.
    pub closed spec fn spec_bytes(&self) -> Seq<u8> {
        self.writer.spec_bytes()
    }

    /// Starts a new file: the version 5.0 header, no records yet.
    pub fn new() -> (r: File)
        ensures
            r.spec_bytes() == spec_header_bytes(5, 0),
    {
        File { writer: Writer::new() }
    }

    /// Appends one encoded point record to the file.
    pub fn write_point(&mut self, point: &Point) -> (r: Result<(), Error>)
        ensures
            r == Ok::<(), Error>(()),
            final(self).spec_bytes() == old(self).spec_bytes() + spec_record_bytes(
                *point,
                5,
                0,
            ),
    {
        self.writer.write_point(point)
    }

    /// Consumes the file and hands its bytes over.
    pub fn into_bytes(self) -> (r: Vec<u8>)
        ensures
            r@ == self.spec_bytes(),
    {
        self.writer.into_bytes()
    }
}

} // verus!
