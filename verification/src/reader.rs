//! Read points from an `.sdc` byte stream.
//!
//! A `Reader` consumes the header once when it is constructed, which
//! fixes the stream's version, and then hands out one point per
//! `next_point` call until the stream's natural end.

use vstd::prelude::*;
use vstd::bytes::u16_from_le_bytes;
use vstd::bytes::u32_from_le_bytes;
use vstd::slice::slice_subrange;
use vstd::slice::slice_to_vec;
use vstd::utf8::decode_utf8;
use vstd::utf8::valid_utf8;

use crate::codec::decode_record;
use crate::codec::spec_header_information;
use crate::codec::spec_header_major;
use crate::codec::spec_header_minor;
use crate::codec::spec_header_size;
use crate::codec::spec_header_valid;
use crate::codec::spec_parse_error;
use crate::codec::spec_parse_records;
use crate::codec::spec_parse_stop;
use crate::codec::spec_point_of_bytes;
use crate::codec::spec_record_len;
use crate::error::Error;
use crate::point::Point;

verus! {

/// The version an `.sdc` stream declares in its header.
#[derive(Clone, Copy, Debug, PartialEq, Eq, Structural)]
pub struct Version {
    /// The major version.
    pub major: u16,
    /// The minor version.
    pub minor: u16,
}

/// An object for reading `.sdc` points out of a byte stream.
///
/// Construction decodes the header; a reader over a stream with a bad
/// header is never constructed.  After that the reader walks the
/// records in order and reports the stream's end by `Ok(None)`,
/// forever once it is reached.
#[derive(Debug)]
pub struct Reader {
    data: Vec<u8>,
    pos: usize,
    version: Version,
    header_information: Vec<u8>,
}

impl Reader {
    /// The whole byte stream this reader walks.
    pub closed spec fn spec_data(&self) -> Seq<u8> {
        self.data@
    }

    /// How many bytes of the stream are consumed so far.
    pub closed spec fn spec_pos(&self) -> int {
        self.pos as int
    }

    /// The version the stream's header declared.
    pub closed spec fn spec_version(&self) -> Version {
        self.version
    }

    /// The header-information bytes the stream's header carried.
    pub closed spec fn spec_header_information(&self) -> Seq<u8> {
        self.header_information@
    }

    /// A reader never stands past the end of its stream.
    pub open spec fn wf(&self) -> bool {
        0 <= self.spec_pos() <= self.spec_data().len()
    }

    /// Creates a new reader over a byte stream, decoding the header.
    ///
    /// The header is the little-endian `header_size` (32 bits), major
    /// and minor version (16 bits each), then `header_size - 8` bytes
    /// of free-form header information.  A stream too short for the 8
    /// fixed bytes is a `ShortRead`; one whose declared size is below
    /// 8 or reaches past the stream's end is rejected as
    /// `InvalidHeaderInformation`.
    pub fn new(data: Vec<u8>) -> (r: Result<Reader, Error>)
        ensures
            data@.len() < 8 ==> r == Err::<Reader, Error>(Error::ShortRead),
            data@.len() >= 8 && !spec_header_valid(data@) ==> r == Err::<Reader, Error>(
                Error::InvalidHeaderInformation,
            ),
            spec_header_valid(data@) ==> (r matches Ok(reader) && {
                &&& reader.wf()
                &&& reader.spec_data() == data@
                &&& reader.spec_pos() == spec_header_size(data@)
                &&& reader.spec_version() == (Version {
                    major: spec_header_major(data@),
                    minor: spec_header_minor(data@),
                })
                &&& reader.spec_header_information() == spec_header_information(data@)
            }),
    {
        if data.len() < 8 {
            return Err(Error::ShortRead);
        }
        let s = data.as_slice();
        let header_size = u32_from_le_bytes(slice_subrange(s, 0, 4));
        let major = u16_from_le_bytes(slice_subrange(s, 4, 6));
        let minor = u16_from_le_bytes(slice_subrange(s, 6, 8));
        if header_size < 8 {
            return Err(Error::InvalidHeaderInformation);
        }
        if (data.len() as u64) < (header_size as u64) {
            return Err(Error::InvalidHeaderInformation);
        }
        let header_end = header_size as usize;
        let header_information = slice_to_vec(slice_subrange(s, 8, header_end));
        Ok(
            Reader {
                data,
                pos: header_end,
                version: Version { major, minor },
                header_information,
            },
        )
    }

    /// Reads the next point from the stream.
    ///
    /// Standing exactly at the stream's end is the normal "no more
    /// points" signal, `Ok(None)`, and the reader stays there, so the
    /// call is idempotent once the stream is exhausted.  A stream that
    /// ends partway through a record is a fatal `ShortRead`; an
    /// unrecognised target-type code is `InvalidTargetType`.  The
    /// reader advances only over a successfully decoded record.
    pub fn next_point(&mut self) -> (r: Result<Option<Point>, Error>)
        requires
            old(self).wf(),
        ensures
            final(self).wf(),
            final(self).spec_data() == old(self).spec_data(),
            final(self).spec_version() == old(self).spec_version(),
            final(self).spec_header_information() == old(self).spec_header_information(),
            ({
                let d = old(self).spec_data();
                let pos = old(self).spec_pos();
                let rl = spec_record_len(old(self).spec_version().major, old(self).spec_version().minor);
                &&& (pos == d.len() ==> r == Ok::<Option<Point>, Error>(None)
                    && final(self).spec_pos() == pos)
                &&& (pos < d.len() && d.len() - pos < 38 ==> r == Err::<Option<Point>, Error>(
                    Error::ShortRead,
                ) && final(self).spec_pos() == pos)
                &&& (d.len() - pos >= 38 && d[pos + 32] > 3 ==> r == Err::<Option<Point>, Error>(
                    Error::InvalidTargetType(d[pos + 32]),
                ) && final(self).spec_pos() == pos)
                &&& (d.len() - pos >= 38 && d[pos + 32] <= 3 && d.len() - pos < rl ==> r == Err::<
                    Option<Point>,
                    Error,
                >(Error::ShortRead) && final(self).spec_pos() == pos)
                &&& (d.len() - pos >= 38 && d[pos + 32] <= 3 && d.len() - pos >= rl ==> r == Ok::<
                    Option<Point>,
                    Error,
                >(
                    Some(
                        spec_point_of_bytes(
                            d.subrange(pos, pos + rl),
                            old(self).spec_version().major,
                            old(self).spec_version().minor,
                        ),
                    ),
                ) && final(self).spec_pos() == pos + rl)
            }),
    {
        let stream_len = self.data.len();
        assert(self.spec_data().len() == stream_len);
        match decode_record(&self.data, self.pos, self.version.major, self.version.minor) {
            Ok(Some((point, end))) => {
                self.pos = end;
                Ok(Some(point))
            },
            Ok(None) => Ok(None),
            Err(e) => Err(e),
        }
    }

    /// Reads every remaining point of the stream, in stream order.
    ///
    /// This is the produce-all-remaining convenience: it calls
    /// `next_point` until the stream's natural end and returns the
    /// points, or surfaces the first decode error instead of
    /// swallowing it.  It succeeds exactly when the remaining bytes
    /// split into whole well-formed records; otherwise it reports the
    /// error of the first record that does not decode and leaves the
    /// reader standing at that record.
    #[verifier::loop_isolation(false)]
    pub fn read_all_points(&mut self) -> (r: Result<Vec<Point>, Error>)
        requires
            old(self).wf(),
        ensures
            final(self).wf(),
            final(self).spec_data() == old(self).spec_data(),
            final(self).spec_version() == old(self).spec_version(),
            final(self).spec_header_information() == old(self).spec_header_information(),
            ({
                let d = old(self).spec_data();
                let pos0 = old(self).spec_pos();
                let major = old(self).spec_version().major;
                let minor = old(self).spec_version().minor;
                let parsed = spec_parse_records(d, pos0, major, minor);
                &&& (r matches Ok(points) ==> parsed == Some(points@) && final(self).spec_pos()
                    == d.len())
                &&& (r is Err ==> parsed is None && r == Err::<Vec<Point>, Error>(
                    spec_parse_error(d, pos0, major, minor),
                ) && final(self).spec_pos() == spec_parse_stop(d, pos0, major, minor))
            }),
    {
        let ghost d = self.spec_data();
        let ghost pos0 = self.spec_pos();
        let ghost major = self.spec_version().major;
        let ghost minor = self.spec_version().minor;
        let ghost info = self.spec_header_information();
        let mut points: Vec<Point> = Vec::new();
        loop
            invariant
                self.wf(),
                self.spec_data() == d,
                self.spec_version().major == major,
                self.spec_version().minor == minor,
                self.spec_header_information() == info,
                spec_parse_records(d, pos0, major, minor) is Some <==> spec_parse_records(
                    d,
                    self.spec_pos(),
                    major,
                    minor,
                ) is Some,
                spec_parse_records(d, pos0, major, minor) matches Some(total) ==> total == points@
                    + spec_parse_records(d, self.spec_pos(), major, minor).unwrap(),
                spec_parse_stop(d, pos0, major, minor) == spec_parse_stop(
                    d,
                    self.spec_pos(),
                    major,
                    minor,
                ),
            decreases d.len() - self.spec_pos(),
        {
            let ghost pos = self.spec_pos();
            match self.next_point() {
                Ok(Some(point)) => {
                    proof {
                        let rl = spec_record_len(major, minor);
                        let rest = spec_parse_records(d, pos + rl, major, minor);
                        if rest is Some {
                            assert(points@ + spec_parse_records(d, pos, major, minor).unwrap()
                                =~= (points@ + seq![point]) + rest.unwrap());
                        }
                        assert(spec_parse_stop(d, pos, major, minor) == spec_parse_stop(
                            d,
                            pos + rl,
                            major,
                            minor,
                        ));
                    }
                    points.push(point);
                },
                Ok(None) => {
                    proof {
                        if spec_parse_records(d, pos0, major, minor) is Some {
                            assert(points@ + spec_parse_records(d, pos, major, minor).unwrap()
                                =~= points@);
                        }
                    }
                    return Ok(points);
                },
                Err(e) => {
                    proof {
                        assert(spec_parse_stop(d, pos, major, minor) == pos);
                    }
                    return Err(e);
                },
            }
        }
    }

    /// Returns the version the stream's header declared.
    pub fn version(&self) -> (r: Version)
        ensures
            r == self.spec_version(),
    {
        self.version
    }

    /// Returns the stream's header information as text, or
    /// `Error::TextDecodingFailure` if the bytes are not valid UTF-8.
    /// Not fatal for the stream: points can still be read either way.
    pub fn header_information_as_str(&self) -> (r: Result<&str, Error>)
        ensures
            r is Ok <==> valid_utf8(self.spec_header_information()),
            r matches Ok(text) ==> text@ == decode_utf8(self.spec_header_information()),
            r is Err ==> r == Err::<&str, Error>(Error::TextDecodingFailure),
    {
        match utf8_from_bytes(self.header_information.as_slice()) {
            Ok(text) => Ok(text),
            Err(_) => Err(Error::TextDecodingFailure),
        }
    }

    /// Turns the reader into an iterator-like walker over its
    /// remaining points.
    pub fn into_iter(self) -> (r: PointIterator)
        ensures
            r.spec_reader() == self,
    {
        PointIterator { reader: self }
    }
}

/// A header declaring the minimal size 8 carries no header-information
/// bytes, and that empty region is valid UTF-8 whose decoding is the
/// empty string.
pub proof fn lemma_empty_header_information(b: Seq<u8>)
    requires
        spec_header_valid(b),
        spec_header_size(b) == 8,
    ensures
        spec_header_information(b) == Seq::<u8>::empty(),
        valid_utf8(spec_header_information(b)),
        decode_utf8(spec_header_information(b)) == Seq::<char>::empty(),
{
    assert(spec_header_information(b) =~= Seq::<u8>::empty());
}

/// The error `core::str::from_utf8` reports on bytes that are not
/// valid UTF-8.
#[verifier::external_type_specification]
#[verifier::external_body]
pub struct ExUtf8Error(core::str::Utf8Error);

/// Relies on `core::str::from_utf8`: it returns `Ok` exactly on valid
/// UTF-8 input, and then the string is the decoding of the bytes.
/// `vstd::utf8` states both notions.
#[verifier::external_body]
fn utf8_from_bytes(bytes: &[u8]) -> (r: Result<&str, core::str::Utf8Error>)
    ensures
        r is Ok <==> valid_utf8(bytes@),
        r matches Ok(text) ==> text@ == decode_utf8(bytes@),
{
    core::str::from_utf8(bytes)
}

/// A forward-only, single-consumer walker over a reader's points.
///
/// Unlike a `std` iterator it does not hide decode errors: each step
/// yields `Ok(Some(point))`, the clean end `Ok(None)`, or the error
/// the record codec reported.
#[derive(Debug)]
pub struct PointIterator {
    reader: Reader,
}

impl PointIterator {
    /// The reader this walker consumes.
    pub closed spec fn spec_reader(&self) -> Reader {
        self.reader
    }

    /// Reads the next point, exactly as `Reader::next_point` does.
    pub fn next(&mut self) -> (r: Result<Option<Point>, Error>)
        requires
            old(self).spec_reader().wf(),
        ensures
            final(self).spec_reader().wf(),
            final(self).spec_reader().spec_data() == old(self).spec_reader().spec_data(),
            final(self).spec_reader().spec_version() == old(self).spec_reader().spec_version(),
            final(self).spec_reader().spec_header_information()
                == old(self).spec_reader().spec_header_information(),
            ({
                let d = old(self).spec_reader().spec_data();
                let pos = old(self).spec_reader().spec_pos();
                let major = old(self).spec_reader().spec_version().major;
                let minor = old(self).spec_reader().spec_version().minor;
                let rl = spec_record_len(major, minor);
                let new_pos = final(self).spec_reader().spec_pos();
                &&& (pos == d.len() ==> r == Ok::<Option<Point>, Error>(None) && new_pos == pos)
                &&& (pos < d.len() && d.len() - pos < 38 ==> r == Err::<Option<Point>, Error>(
                    Error::ShortRead,
                ) && new_pos == pos)
                &&& (d.len() - pos >= 38 && d[pos + 32] > 3 ==> r == Err::<Option<Point>, Error>(
                    Error::InvalidTargetType(d[pos + 32]),
                ) && new_pos == pos)
                &&& (d.len() - pos >= 38 && d[pos + 32] <= 3 && d.len() - pos < rl ==> r == Err::<
                    Option<Point>,
                    Error,
                >(Error::ShortRead) && new_pos == pos)
                &&& (d.len() - pos >= 38 && d[pos + 32] <= 3 && d.len() - pos >= rl ==> r == Ok::<
                    Option<Point>,
                    Error,
                >(Some(spec_point_of_bytes(d.subrange(pos, pos + rl), major, minor))) && new_pos
                    == pos + rl)
            }),
    {
        self.reader.next_point()
    }
}

} // verus!
