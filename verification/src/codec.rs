//! The byte-level codec for `.sdc` headers and point records.
//!
//! All multi-byte fields are little-endian.  A record is a fixed
//! 38-byte prefix followed by optional fields that exist only when the
//! stream's declared version admits them: `class_id` from version 5.2,
//! `rho` from 5.3, `reflectance` from 5.4.

use vstd::prelude::*;
use vstd::bytes::lemma_auto_spec_u16_to_from_le_bytes;
use vstd::bytes::lemma_auto_spec_u32_to_from_le_bytes;
use vstd::bytes::lemma_auto_spec_u64_to_from_le_bytes;
use vstd::bytes::spec_u16_from_le_bytes;
use vstd::bytes::spec_u16_to_le_bytes;
use vstd::bytes::spec_u32_from_le_bytes;
use vstd::bytes::spec_u32_to_le_bytes;
use vstd::bytes::spec_u64_from_le_bytes;
use vstd::bytes::spec_u64_to_le_bytes;
use vstd::bytes::u16_from_le_bytes;
use vstd::bytes::u16_to_le_bytes;
use vstd::bytes::u32_from_le_bytes;
use vstd::bytes::u32_to_le_bytes;
use vstd::bytes::u64_from_le_bytes;
use vstd::bytes::u64_to_le_bytes;
use vstd::slice::slice_subrange;

use crate::error::Error;
use crate::point::Point;
use crate::point::TargetType;
use crate::point::spec_channel_desc_byte;
use crate::point::target_type_code;
use crate::point::target_type_of_code;

verus! {

/// Whether a stream of this version carries a `class_id` per record.
pub open spec fn has_class_id(major: u16, minor: u16) -> bool {
    major >= 5 && minor >= 2
}

/// Whether a stream of this version carries a `rho` per record.
pub open spec fn has_rho(major: u16, minor: u16) -> bool {
    major >= 5 && minor >= 3
}

/// Whether a stream of this version carries a `reflectance` per record.
pub open spec fn has_reflectance(major: u16, minor: u16) -> bool {
    major >= 5 && minor >= 4
}

/// The exact length in bytes of one encoded record under a version.
pub open spec fn spec_record_len(major: u16, minor: u16) -> int {
    38 + (if has_class_id(major, minor) {
        1int
    } else {
        0int
    }) + (if has_rho(major, minor) {
        4int
    } else {
        0int
    }) + (if has_reflectance(major, minor) {
        2int
    } else {
        0int
    })
}

/// The exact length in bytes of one encoded record under a version.
pub fn record_len(major: u16, minor: u16) -> (n: usize)
    ensures
        n == spec_record_len(major, minor),
        38 <= n <= 45,
{
    let mut n: usize = 38;
    if major >= 5 && minor >= 2 {
        n = n + 1;
    }
    if major >= 5 && minor >= 3 {
        n = n + 4;
    }
    if major >= 5 && minor >= 4 {
        n = n + 2;
    }
    n
}

/// A signed 16-bit value as its two little-endian bytes.
pub open spec fn spec_i16_to_le_bytes(x: i16) -> Seq<u8> {
    spec_u16_to_le_bytes(x as u16)
}

/// The signed 16-bit value two little-endian bytes stand for.
pub open spec fn spec_i16_from_le_bytes(s: Seq<u8>) -> i16
    recommends
        s.len() == 2,
{
    spec_u16_from_le_bytes(s) as i16
}

/// Whether a point carries exactly the optional fields its version
/// implies: no more, no fewer.
pub open spec fn options_match(p: Point, major: u16, minor: u16) -> bool {
    &&& (p.class_id is Some <==> has_class_id(major, minor))
    &&& (p.rho is Some <==> has_rho(major, minor))
    &&& (p.reflectance is Some <==> has_reflectance(major, minor))
}

/// Whether a point carries at least the optional fields its version
/// implies, so that it can be encoded under that version.
pub open spec fn options_present(p: Point, major: u16, minor: u16) -> bool {
    &&& (has_class_id(major, minor) ==> p.class_id is Some)
    &&& (has_rho(major, minor) ==> p.rho is Some)
    &&& (has_reflectance(major, minor) ==> p.reflectance is Some)
}

/// The exact bytes one point encodes to under a version.  The encoding
/// order is fixed: time, range, theta, x, y, z, amplitude, width,
/// target type, target, num_target, rg_index, channel descriptor byte,
/// then the optional fields the version admits.
pub open spec fn spec_record_bytes(p: Point, major: u16, minor: u16) -> Seq<u8> {
    spec_u64_to_le_bytes(p.time) + spec_u32_to_le_bytes(p.range) + spec_u32_to_le_bytes(p.theta)
        + spec_u32_to_le_bytes(p.x) + spec_u32_to_le_bytes(p.y) + spec_u32_to_le_bytes(p.z)
        + spec_u16_to_le_bytes(p.amplitude) + spec_u16_to_le_bytes(p.width) + seq![
        target_type_code(p.target_type),
        p.target,
        p.num_target,
    ] + spec_u16_to_le_bytes(p.rg_index) + seq![
        spec_channel_desc_byte(p.facet_number, p.high_channel),
    ] + (if has_class_id(major, minor) {
        seq![p.class_id.unwrap()]
    } else {
        Seq::<u8>::empty()
    }) + (if has_rho(major, minor) {
        spec_u32_to_le_bytes(p.rho.unwrap())
    } else {
        Seq::<u8>::empty()
    }) + (if has_reflectance(major, minor) {
        spec_i16_to_le_bytes(p.reflectance.unwrap())
    } else {
        Seq::<u8>::empty()
    })
}

/// The point one record's bytes decode to under a version.  `b` is
/// exactly one record, `spec_record_len(major, minor)` bytes long, and
/// its target-type byte is a valid code.
pub open spec fn spec_point_of_bytes(b: Seq<u8>, major: u16, minor: u16) -> Point
    recommends
        b.len() == spec_record_len(major, minor),
        target_type_of_code(b[32]) is Ok,
{
    Point {
        time: spec_u64_from_le_bytes(b.subrange(0, 8)),
        range: spec_u32_from_le_bytes(b.subrange(8, 12)),
        theta: spec_u32_from_le_bytes(b.subrange(12, 16)),
        x: spec_u32_from_le_bytes(b.subrange(16, 20)),
        y: spec_u32_from_le_bytes(b.subrange(20, 24)),
        z: spec_u32_from_le_bytes(b.subrange(24, 28)),
        amplitude: spec_u16_from_le_bytes(b.subrange(28, 30)),
        width: spec_u16_from_le_bytes(b.subrange(30, 32)),
        target_type: match target_type_of_code(b[32]) {
            Ok(t) => t,
            Err(_) => TargetType::Peak,
        },
        target: b[33],
        num_target: b[34],
        rg_index: spec_u16_from_le_bytes(b.subrange(35, 37)),
        facet_number: b[37] & 0x3,
        high_channel: b[37] & 0x40 == 0x40,
        class_id: if has_class_id(major, minor) {
            Some(b[38])
        } else {
            None
        },
        rho: if has_rho(major, minor) {
            Some(spec_u32_from_le_bytes(b.subrange(39, 43)))
        } else {
            None
        },
        reflectance: if has_reflectance(major, minor) {
            Some(spec_i16_from_le_bytes(b.subrange(43, 45)))
        } else {
            None
        },
    }
}

/// Lengths of the little-endian byte encodings, in one place.
proof fn lemma_le_bytes_lens()
    ensures
        forall|x: u16| (#[trigger] spec_u16_to_le_bytes(x)).len() == 2,
        forall|x: u32| (#[trigger] spec_u32_to_le_bytes(x)).len() == 4,
        forall|x: u64| (#[trigger] spec_u64_to_le_bytes(x)).len() == 8,
{
    lemma_auto_spec_u16_to_from_le_bytes();
    lemma_auto_spec_u32_to_from_le_bytes();
    lemma_auto_spec_u64_to_from_le_bytes();
}

/// A decoded record always carries exactly the optional fields its
/// version implies — no more, no fewer — and a facet number that fits
/// the two on-wire bits.
pub proof fn lemma_decoded_point_well_formed(b: Seq<u8>, major: u16, minor: u16)
    ensures
        options_match(spec_point_of_bytes(b, major, minor), major, minor),
        spec_point_of_bytes(b, major, minor).facet_number <= 3,
{
    let c = b[37];
    assert(c & 0x3 <= 3) by (bit_vector);
}

/// Decoding an encoded record under the same version recovers the
/// point, field for field, whenever the point is well formed for that
/// version: its facet number fits the two on-wire bits and it carries
/// exactly the optional fields the version implies.
pub proof fn lemma_record_round_trip(p: Point, major: u16, minor: u16)
    requires
        p.facet_number <= 3,
        options_match(p, major, minor),
    ensures
        spec_point_of_bytes(spec_record_bytes(p, major, minor), major, minor) == p,
{
    lemma_auto_spec_u16_to_from_le_bytes();
    lemma_auto_spec_u32_to_from_le_bytes();
    lemma_auto_spec_u64_to_from_le_bytes();
    let b = spec_record_bytes(p, major, minor);
    assert(b.subrange(0, 8) =~= spec_u64_to_le_bytes(p.time));
    assert(b.subrange(8, 12) =~= spec_u32_to_le_bytes(p.range));
    assert(b.subrange(12, 16) =~= spec_u32_to_le_bytes(p.theta));
    assert(b.subrange(16, 20) =~= spec_u32_to_le_bytes(p.x));
    assert(b.subrange(20, 24) =~= spec_u32_to_le_bytes(p.y));
    assert(b.subrange(24, 28) =~= spec_u32_to_le_bytes(p.z));
    assert(b.subrange(28, 30) =~= spec_u16_to_le_bytes(p.amplitude));
    assert(b.subrange(30, 32) =~= spec_u16_to_le_bytes(p.width));
    assert(b[32] == target_type_code(p.target_type));
    assert(b[33] == p.target);
    assert(b[34] == p.num_target);
    assert(b.subrange(35, 37) =~= spec_u16_to_le_bytes(p.rg_index));
    assert(b[37] == spec_channel_desc_byte(p.facet_number, p.high_channel));
    crate::point::lemma_channel_desc_byte_round_trip(p.facet_number, p.high_channel);
    if has_class_id(major, minor) {
        assert(b[38] == p.class_id.unwrap());
    }
    if has_rho(major, minor) {
        assert(b.subrange(39, 43) =~= spec_u32_to_le_bytes(p.rho.unwrap()));
    }
    if has_reflectance(major, minor) {
        assert(b.subrange(43, 45) =~= spec_u16_to_le_bytes(p.reflectance.unwrap() as u16));
        let x = p.reflectance.unwrap();
        assert(x as u16 as i16 == x) by (bit_vector);
    }
    let q = spec_point_of_bytes(b, major, minor);
    assert(q.target_type == p.target_type);
    assert(q.class_id == p.class_id);
    assert(q.rho == p.rho);
    assert(q.reflectance == p.reflectance);
}

/// Encoding a decoded record under the same version reproduces the
/// original bytes, byte for byte, whenever they are one well-formed
/// record: the right length, a valid target-type code, and a channel
/// descriptor byte with no bits outside 0, 1 and 6.
pub proof fn lemma_record_bytes_round_trip(b: Seq<u8>, major: u16, minor: u16)
    requires
        b.len() == spec_record_len(major, minor),
        b[32] <= 3,
        b[37] & 0xbc == 0,
    ensures
        spec_record_bytes(spec_point_of_bytes(b, major, minor), major, minor) == b,
{
    lemma_auto_spec_u16_to_from_le_bytes();
    lemma_auto_spec_u32_to_from_le_bytes();
    lemma_auto_spec_u64_to_from_le_bytes();
    let p = spec_point_of_bytes(b, major, minor);
    assert(target_type_code(p.target_type) == b[32]);
    let c = b[37];
    assert(c & 0xbc == 0 && c & 0x40 == 0x40 ==> (((c & 0x3) & 0x3) | 0x40) == c) by (bit_vector);
    assert(c & 0xbc == 0 && c & 0x40 != 0x40 ==> ((c & 0x3) & 0x3) == c) by (bit_vector);
    assert(spec_channel_desc_byte(p.facet_number, p.high_channel) == b[37]);
    if has_reflectance(major, minor) {
        let s = b.subrange(43, 45);
        let x = spec_u16_from_le_bytes(s);
        assert((x as i16) as u16 == x) by (bit_vector);
        assert(spec_i16_to_le_bytes(p.reflectance.unwrap()) == spec_u16_to_le_bytes(x));
    }
    assert(spec_record_bytes(p, major, minor) =~= b);
}

/// Appends the encoding of one point under a version to `out`.  The
/// point must carry every optional field the version calls for.
pub fn encode_record(out: &mut Vec<u8>, point: &Point, major: u16, minor: u16)
    requires
        options_present(*point, major, minor),
    ensures
        final(out)@ == old(out)@ + spec_record_bytes(*point, major, minor),
{
    let mut tmp = u64_to_le_bytes(point.time);
    out.append(&mut tmp);
    let mut tmp = u32_to_le_bytes(point.range);
    out.append(&mut tmp);
    let mut tmp = u32_to_le_bytes(point.theta);
    out.append(&mut tmp);
    let mut tmp = u32_to_le_bytes(point.x);
    out.append(&mut tmp);
    let mut tmp = u32_to_le_bytes(point.y);
    out.append(&mut tmp);
    let mut tmp = u32_to_le_bytes(point.z);
    out.append(&mut tmp);
    let mut tmp = u16_to_le_bytes(point.amplitude);
    out.append(&mut tmp);
    let mut tmp = u16_to_le_bytes(point.width);
    out.append(&mut tmp);
    out.push(point.target_type.as_u8());
    out.push(point.target);
    out.push(point.num_target);
    let mut tmp = u16_to_le_bytes(point.rg_index);
    out.append(&mut tmp);
    out.push(point.channel_desc_byte());
    if major >= 5 && minor >= 2 {
        out.push(point.class_id.unwrap());
    }
    if major >= 5 && minor >= 3 {
        let mut tmp = u32_to_le_bytes(point.rho.unwrap());
        out.append(&mut tmp);
    }
    if major >= 5 && minor >= 4 {
        let reflectance = point.reflectance.unwrap();
        let mut tmp = u16_to_le_bytes(#[verifier::truncate] (reflectance as u16));
        out.append(&mut tmp);
    }
    proof {
        assert(out@ =~= old(out)@ + spec_record_bytes(*point, major, minor));
    }
}

/// Decodes one point record from `data` at `pos` under a version.
///
/// A stream standing exactly at its end is the normal "no more
/// records" signal and yields `Ok(None)`.  A stream that ends partway
/// through the fixed 38-byte prefix — or, with a whole prefix, partway
/// through the optional fields — is a fatal `ShortRead`.  Only once
/// the whole prefix is present is the target-type byte decoded, and an
/// unrecognised code rejected, before any optional field is read.  On
/// success the decoded point comes back with the position just past
/// the record.
pub fn decode_record(data: &Vec<u8>, pos: usize, major: u16, minor: u16) -> (r: Result<
    Option<(Point, usize)>,
    Error,
>)
    requires
        pos <= data@.len(),
    ensures
        pos == data@.len() ==> r == Ok::<Option<(Point, usize)>, Error>(None),
        pos < data@.len() && data@.len() - pos < 38 ==> r == Err::<Option<(Point, usize)>, Error>(
            Error::ShortRead,
        ),
        data@.len() - pos >= 38 && data@[pos + 32] > 3 ==> r == Err::<
            Option<(Point, usize)>,
            Error,
        >(Error::InvalidTargetType(data@[pos + 32])),
        data@.len() - pos >= 38 && data@[pos + 32] <= 3 && data@.len() - pos < spec_record_len(
            major,
            minor,
        ) ==> r == Err::<Option<(Point, usize)>, Error>(Error::ShortRead),
        data@.len() - pos >= 38 && data@[pos + 32] <= 3 && data@.len() - pos >= spec_record_len(
            major,
            minor,
        ) ==> {
            let end = pos + spec_record_len(major, minor);
            r == Ok::<Option<(Point, usize)>, Error>(
                Some(
                    (spec_point_of_bytes(data@.subrange(pos as int, end), major, minor), end as usize),
                ),
            )
        },
{
    let len = data.len();
    if pos == len {
        return Ok(None);
    }
    if len - pos < 38 {
        return Err(Error::ShortRead);
    }
    let target_type_byte = data[pos + 32];
    let target_type = match TargetType::from_u8(target_type_byte) {
        Ok(t) => t,
        Err(e) => {
            return Err(e);
        },
    };
    let rl = record_len(major, minor);
    if len - pos < rl {
        return Err(Error::ShortRead);
    }
    let end = pos + rl;
    let ghost b = data@.subrange(pos as int, end as int);
    proof {
        lemma_le_bytes_lens();
    }
    let s = data.as_slice();
    let time = u64_from_le_bytes(slice_subrange(s, pos, pos + 8));
    let range = u32_from_le_bytes(slice_subrange(s, pos + 8, pos + 12));
    let theta = u32_from_le_bytes(slice_subrange(s, pos + 12, pos + 16));
    let x = u32_from_le_bytes(slice_subrange(s, pos + 16, pos + 20));
    let y = u32_from_le_bytes(slice_subrange(s, pos + 20, pos + 24));
    let z = u32_from_le_bytes(slice_subrange(s, pos + 24, pos + 28));
    let amplitude = u16_from_le_bytes(slice_subrange(s, pos + 28, pos + 30));
    let width = u16_from_le_bytes(slice_subrange(s, pos + 30, pos + 32));
    let target = data[pos + 33];
    let num_target = data[pos + 34];
    let rg_index = u16_from_le_bytes(slice_subrange(s, pos + 35, pos + 37));
    let channel = data[pos + 37];
    let facet_number = channel & 0x3;
    let high_channel = channel & 0x40 == 0x40;
    let mut class_id: Option<u8> = None;
    let mut rho: Option<u32> = None;
    let mut reflectance: Option<i16> = None;
    if major >= 5 && minor >= 2 {
        class_id = Some(data[pos + 38]);
    }
    if major >= 5 && minor >= 3 {
        rho = Some(u32_from_le_bytes(slice_subrange(s, pos + 39, pos + 43)));
    }
    if major >= 5 && minor >= 4 {
        let w = u16_from_le_bytes(slice_subrange(s, pos + 43, pos + 45));
        reflectance = Some(#[verifier::truncate] (w as i16));
    }
    let point = Point {
        time,
        range,
        theta,
        x,
        y,
        z,
        amplitude,
        width,
        target_type,
        target,
        num_target,
        rg_index,
        facet_number,
        high_channel,
        class_id,
        rho,
        reflectance,
    };
    proof {
        assert(b.subrange(0, 8) =~= data@.subrange(pos as int, pos + 8));
        assert(b.subrange(8, 12) =~= data@.subrange(pos + 8, pos + 12));
        assert(b.subrange(12, 16) =~= data@.subrange(pos + 12, pos + 16));
        assert(b.subrange(16, 20) =~= data@.subrange(pos + 16, pos + 20));
        assert(b.subrange(20, 24) =~= data@.subrange(pos + 20, pos + 24));
        assert(b.subrange(24, 28) =~= data@.subrange(pos + 24, pos + 28));
        assert(b.subrange(28, 30) =~= data@.subrange(pos + 28, pos + 30));
        assert(b.subrange(30, 32) =~= data@.subrange(pos + 30, pos + 32));
        assert(b.subrange(35, 37) =~= data@.subrange(pos + 35, pos + 37));
        if has_rho(major, minor) {
            assert(b.subrange(39, 43) =~= data@.subrange(pos + 39, pos + 43));
        }
        if has_reflectance(major, minor) {
            assert(b.subrange(43, 45) =~= data@.subrange(pos + 43, pos + 45));
        }
        assert(point == spec_point_of_bytes(b, major, minor));
    }
    Ok(Some((point, end)))
}

/// The declared total header length in bytes, read from the first four
/// bytes of a stream.  It counts the 8 fixed bytes, so a well-formed
/// header declares at least 8.
pub open spec fn spec_header_size(b: Seq<u8>) -> int
    recommends
        b.len() >= 4,
{
    spec_u32_from_le_bytes(b.subrange(0, 4)) as int
}

/// The major version a stream's header declares.
pub open spec fn spec_header_major(b: Seq<u8>) -> u16
    recommends
        b.len() >= 8,
{
    spec_u16_from_le_bytes(b.subrange(4, 6))
}

/// The minor version a stream's header declares.
pub open spec fn spec_header_minor(b: Seq<u8>) -> u16
    recommends
        b.len() >= 8,
{
    spec_u16_from_le_bytes(b.subrange(6, 8))
}

/// Whether a stream opens with a well-formed header: the 8 fixed bytes
/// are there, the declared size covers them, and the declared
/// header-information region really is in the stream.
pub open spec fn spec_header_valid(b: Seq<u8>) -> bool {
    &&& b.len() >= 8
    &&& spec_header_size(b) >= 8
    &&& spec_header_size(b) <= b.len()
}

/// The free-form header-information bytes of a stream, between the 8
/// fixed header bytes and the declared end of the header.
pub open spec fn spec_header_information(b: Seq<u8>) -> Seq<u8>
    recommends
        spec_header_valid(b),
{
    b.subrange(8, spec_header_size(b))
}

/// Version gating, in both directions.  A stream declaring minor
/// version 1 (or 0) carries none of the optional fields, so a record
/// is the bare 38-byte prefix and nothing beyond it is ever read back;
/// a stream declaring version 5.4 carries all three.
pub proof fn lemma_version_gating(b: Seq<u8>, major: u16)
    ensures
        !has_class_id(major, 0) && !has_rho(major, 0) && !has_reflectance(major, 0),
        !has_class_id(major, 1) && !has_rho(major, 1) && !has_reflectance(major, 1),
        spec_record_len(major, 0) == 38 && spec_record_len(major, 1) == 38,
        spec_point_of_bytes(b, major, 1).class_id is None,
        spec_point_of_bytes(b, major, 1).rho is None,
        spec_point_of_bytes(b, major, 1).reflectance is None,
        has_class_id(5, 4) && has_rho(5, 4) && has_reflectance(5, 4),
        spec_record_len(5, 4) == 45,
        spec_point_of_bytes(b, 5, 4).class_id is Some,
        spec_point_of_bytes(b, 5, 4).rho is Some,
        spec_point_of_bytes(b, 5, 4).reflectance is Some,
{
}

/// The points a stream holds from a position on: none when the
/// position stands exactly at the stream's end, one record followed by
/// the rest when a whole well-formed record starts there, and no parse
/// at all otherwise.  This is what reading every remaining point
/// returns when it succeeds.
pub open spec fn spec_parse_records(b: Seq<u8>, pos: int, major: u16, minor: u16) -> Option<
    Seq<Point>,
>
    recommends
        0 <= pos <= b.len(),
    decreases b.len() - pos,
    when 0 <= pos <= b.len()
{
    if pos == b.len() {
        Some(Seq::<Point>::empty())
    } else if b.len() - pos >= spec_record_len(major, minor) && b[pos + 32] <= 3 {
        match spec_parse_records(b, pos + spec_record_len(major, minor), major, minor) {
            Some(rest) => Some(
                seq![
                    spec_point_of_bytes(
                        b.subrange(pos, pos + spec_record_len(major, minor)),
                        major,
                        minor,
                    ),
                ] + rest,
            ),
            None => None,
        }
    } else {
        None
    }
}

/// Where a walk over the records from a position stops: the position
/// just past the last whole well-formed record, which is the stream's
/// end when the whole remainder parses, and the start of the first
/// record that does not decode otherwise.
pub open spec fn spec_parse_stop(b: Seq<u8>, pos: int, major: u16, minor: u16) -> int
    recommends
        0 <= pos <= b.len(),
    decreases b.len() - pos,
    when 0 <= pos <= b.len()
{
    if pos < b.len() && b.len() - pos >= spec_record_len(major, minor) && b[pos + 32] <= 3 {
        spec_parse_stop(b, pos + spec_record_len(major, minor), major, minor)
    } else {
        pos
    }
}

/// The error on which a walk over the records from a position stops,
/// when the remainder does not split into whole records: the error the
/// record codec reports for the first record that does not decode.
pub open spec fn spec_parse_error(b: Seq<u8>, pos: int, major: u16, minor: u16) -> Error
    recommends
        0 <= pos <= b.len(),
        spec_parse_records(b, pos, major, minor) is None,
{
    let stop = spec_parse_stop(b, pos, major, minor);
    if b.len() - stop >= 38 && b[stop + 32] > 3 {
        Error::InvalidTargetType(b[stop + 32])
    } else {
        Error::ShortRead
    }
}

/// The bytes of a whole run of records, first to last.
pub open spec fn spec_records_bytes(points: Seq<Point>, major: u16, minor: u16) -> Seq<u8>
    decreases points.len(),
{
    if points.len() == 0 {
        Seq::<u8>::empty()
    } else {
        spec_record_bytes(points[0], major, minor) + spec_records_bytes(
            points.skip(1),
            major,
            minor,
        )
    }
}

/// One record's bytes are exactly as long as the version calls for.
pub proof fn lemma_record_bytes_len(p: Point, major: u16, minor: u16)
    ensures
        spec_record_bytes(p, major, minor).len() == spec_record_len(major, minor),
{
    lemma_le_bytes_lens();
}

/// Whether every point of a run is well formed for a version: its
/// facet number fits the two on-wire bits and it carries exactly the
/// optional fields the version implies.
pub open spec fn points_wf(points: Seq<Point>, major: u16, minor: u16) -> bool {
    forall|i: int|
        0 <= i < points.len() ==> (#[trigger] points[i]).facet_number <= 3 && options_match(
            points[i],
            major,
            minor,
        )
}

/// A stream whose remainder is the encoding of a run of well-formed
/// records parses back to exactly those records, in order.
pub proof fn lemma_parse_records_round_trip(
    d: Seq<u8>,
    pos: int,
    points: Seq<Point>,
    major: u16,
    minor: u16,
)
    requires
        0 <= pos <= d.len(),
        d.subrange(pos, d.len() as int) == spec_records_bytes(points, major, minor),
        points_wf(points, major, minor),
    ensures
        spec_parse_records(d, pos, major, minor) == Some(points),
    decreases points.len(),
{
    lemma_le_bytes_lens();
    let rl = spec_record_len(major, minor);
    let suffix = d.subrange(pos, d.len() as int);
    if points.len() == 0 {
        assert(points =~= Seq::<Point>::empty());
    } else {
        let p0 = points[0];
        let rb = spec_record_bytes(p0, major, minor);
        let rest = spec_records_bytes(points.skip(1), major, minor);
        lemma_record_bytes_len(p0, major, minor);
        assert(suffix == rb + rest);
        assert(pos + rl <= d.len());
        assert(d[pos + 32] == suffix[32]);
        assert(rb[32] == target_type_code(p0.target_type));
        assert(target_type_code(p0.target_type) <= 3);
        assert(d.subrange(pos, pos + rl) =~= rb);
        lemma_record_round_trip(p0, major, minor);
        assert forall|i: int| 0 <= i < rest.len() implies d.subrange(pos + rl, d.len() as int)[i]
            == rest[i] by {
            assert(d.subrange(pos + rl, d.len() as int)[i] == suffix[rl + i]);
            assert(suffix[rl + i] == (rb + rest)[rl + i]);
        }
        assert(d.subrange(pos + rl, d.len() as int) =~= rest);
        lemma_parse_records_round_trip(d, pos + rl, points.skip(1), major, minor);
        assert(seq![p0] + points.skip(1) =~= points);
    }
}

/// The 8 fixed bytes of a header this library writes: a declared
/// header size of 8 (so no header-information text), then the major
/// and minor version, all little-endian.
pub open spec fn spec_header_bytes(major: u16, minor: u16) -> Seq<u8> {
    spec_u32_to_le_bytes(8) + spec_u16_to_le_bytes(major) + spec_u16_to_le_bytes(minor)
}

/// End to end: a stream assembled the way the writer assembles it — a
/// fixed version 5.0 header followed by the encodings of well-formed
/// points — has a valid header that declares version 5.0 with no
/// header-information text, and reading the stream back yields exactly
/// the written points, in insertion order.
pub proof fn lemma_write_read_round_trip(d: Seq<u8>, points: Seq<Point>)
    requires
        d == spec_header_bytes(5, 0) + spec_records_bytes(points, 5, 0),
        points_wf(points, 5, 0),
    ensures
        spec_header_valid(d),
        spec_header_size(d) == 8,
        spec_header_major(d) == 5,
        spec_header_minor(d) == 0,
        spec_header_information(d) == Seq::<u8>::empty(),
        spec_parse_records(d, 8, 5, 0) == Some(points),
{
    lemma_le_bytes_lens();
    lemma_auto_spec_u16_to_from_le_bytes();
    lemma_auto_spec_u32_to_from_le_bytes();
    assert(d.subrange(0, 4) =~= spec_u32_to_le_bytes(8));
    assert(d.subrange(4, 6) =~= spec_u16_to_le_bytes(5));
    assert(d.subrange(6, 8) =~= spec_u16_to_le_bytes(0));
    assert(spec_header_information(d) =~= Seq::<u8>::empty());
    assert(d.subrange(8, d.len() as int) =~= spec_records_bytes(points, 5, 0));
    lemma_parse_records_round_trip(d, 8, points, 5, 0);
}

/// Appends a fixed-size 8-byte header declaring the given version.
pub fn encode_header(out: &mut Vec<u8>, major: u16, minor: u16)
    ensures
        final(out)@ == old(out)@ + spec_header_bytes(major, minor),
{
    let mut tmp = u32_to_le_bytes(8);
    out.append(&mut tmp);
    let mut tmp = u16_to_le_bytes(major);
    out.append(&mut tmp);
    let mut tmp = u16_to_le_bytes(minor);
    out.append(&mut tmp);
    proof {
        assert(out@ =~= old(out)@ + spec_header_bytes(major, minor));
    }
}

} // verus!
