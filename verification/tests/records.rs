use sdc::Error;
use sdc::Reader;
use sdc::TargetType;

fn header(major: u16, minor: u16) -> Vec<u8> {
    let mut bytes = Vec::new();
    bytes.extend_from_slice(&8u32.to_le_bytes());
    bytes.extend_from_slice(&major.to_le_bytes());
    bytes.extend_from_slice(&minor.to_le_bytes());
    bytes
}

/// The fixed 38-byte record prefix, fields in wire order.
fn record_prefix(
    time: f64,
    range: f32,
    amplitude: u16,
    target_type: u8,
    rg_index: u16,
    channel: u8,
) -> Vec<u8> {
    let mut bytes = Vec::new();
    bytes.extend_from_slice(&time.to_bits().to_le_bytes());
    bytes.extend_from_slice(&range.to_bits().to_le_bytes());
    bytes.extend_from_slice(&1.5f32.to_bits().to_le_bytes()); // theta
    bytes.extend_from_slice(&2.5f32.to_bits().to_le_bytes()); // x
    bytes.extend_from_slice(&3.5f32.to_bits().to_le_bytes()); // y
    bytes.extend_from_slice(&4.5f32.to_bits().to_le_bytes()); // z
    bytes.extend_from_slice(&amplitude.to_le_bytes());
    bytes.extend_from_slice(&7u16.to_le_bytes()); // width
    bytes.push(target_type);
    bytes.push(1); // target
    bytes.push(2); // num_target
    bytes.extend_from_slice(&rg_index.to_le_bytes());
    bytes.push(channel);
    bytes
}

#[test]
fn end_of_stream_is_no_more_records() {
    let mut stream = header(5, 0);
    stream.extend_from_slice(&record_prefix(1.0, 2.0, 100, 3, 9, 0x42));
    let mut reader = Reader::new(stream).unwrap();
    let point = reader.next_point().unwrap().unwrap();
    assert_eq!(1.0f64.to_bits(), point.time);
    // positioned exactly at the natural end: no more records, no error,
    // and the answer does not change on a second ask
    assert_eq!(None, reader.next_point().unwrap());
    assert_eq!(None, reader.next_point().unwrap());
}

#[test]
fn truncated_record_is_short_read() {
    let mut stream = header(5, 0);
    stream.extend_from_slice(&record_prefix(1.0, 2.0, 100, 3, 9, 0));
    stream.truncate(8 + 20);
    let mut reader = Reader::new(stream).unwrap();
    assert_eq!(Err(Error::ShortRead), reader.next_point());
}

#[test]
fn truncated_first_field_is_short_read() {
    let mut stream = header(5, 0);
    stream.extend_from_slice(&[0, 1, 2]); // 3 bytes of an 8-byte time field
    let mut reader = Reader::new(stream).unwrap();
    assert_eq!(Err(Error::ShortRead), reader.next_point());
}

#[test]
fn unknown_target_type_is_rejected() {
    let mut stream = header(5, 0);
    stream.extend_from_slice(&record_prefix(1.0, 2.0, 100, 9, 9, 0));
    let mut reader = Reader::new(stream).unwrap();
    assert_eq!(Err(Error::InvalidTargetType(9)), reader.next_point());
}

#[test]
fn truncated_prefix_with_bad_target_type_is_short_read() {
    // the fixed 38-byte prefix ends early: a short read, even though
    // the (invalid) target-type byte itself is already readable
    let mut stream = header(5, 0);
    let mut record = record_prefix(1.0, 2.0, 100, 9, 9, 0);
    record.truncate(35);
    stream.extend_from_slice(&record);
    let mut reader = Reader::new(stream).unwrap();
    assert_eq!(Err(Error::ShortRead), reader.next_point());
}

#[test]
fn bad_target_type_is_reported_before_missing_optional_fields() {
    // the whole fixed prefix is present but the optional region is
    // missing: the target type is decoded first, so its error wins
    let mut stream = header(5, 2);
    stream.extend_from_slice(&record_prefix(1.0, 2.0, 100, 9, 9, 0));
    let mut reader = Reader::new(stream).unwrap();
    assert_eq!(Err(Error::InvalidTargetType(9)), reader.next_point());
}

#[test]
fn decoded_fields_match_the_wire() {
    let mut stream = header(5, 0);
    stream.extend_from_slice(&record_prefix(1.25, -2.5, 4660, 1, 513, 0x41));
    let mut reader = Reader::new(stream).unwrap();
    let point = reader.next_point().unwrap().unwrap();
    assert_eq!(1.25, f64::from_bits(point.time));
    assert_eq!(-2.5, f32::from_bits(point.range));
    assert_eq!(1.5, f32::from_bits(point.theta));
    assert_eq!(2.5, f32::from_bits(point.x));
    assert_eq!(3.5, f32::from_bits(point.y));
    assert_eq!(4.5, f32::from_bits(point.z));
    assert_eq!(4660, point.amplitude);
    assert_eq!(7, point.width);
    assert_eq!(TargetType::Parabola, point.target_type);
    assert_eq!(1, point.target);
    assert_eq!(2, point.num_target);
    assert_eq!(513, point.rg_index);
    assert_eq!(1, point.facet_number);
    assert!(point.high_channel);
}

#[test]
fn minor_one_decodes_no_optional_fields() {
    let mut stream = header(5, 1);
    stream.extend_from_slice(&record_prefix(1.0, 2.0, 100, 0, 9, 0));
    let mut reader = Reader::new(stream).unwrap();
    let point = reader.next_point().unwrap().unwrap();
    assert_eq!(None, point.class_id);
    assert_eq!(None, point.rho);
    assert_eq!(None, point.reflectance);
    assert_eq!(None, reader.next_point().unwrap());
}

#[test]
fn minor_four_decodes_all_optional_fields() {
    let mut stream = header(5, 4);
    stream.extend_from_slice(&record_prefix(1.0, 2.0, 100, 0, 9, 0));
    stream.push(17); // class_id
    stream.extend_from_slice(&0.25f32.to_bits().to_le_bytes()); // rho
    stream.extend_from_slice(&(-42i16).to_le_bytes()); // reflectance
    let mut reader = Reader::new(stream).unwrap();
    let point = reader.next_point().unwrap().unwrap();
    assert_eq!(Some(17), point.class_id);
    assert_eq!(Some(0.25f32.to_bits()), point.rho);
    assert_eq!(Some(-42), point.reflectance);
    assert_eq!(None, reader.next_point().unwrap());
}

#[test]
fn bare_prefix_under_minor_four_is_short_read() {
    // a record written under minor 0 is only the 38-byte prefix; a
    // stream declaring minor 4 demands the optional fields too
    let mut stream = header(5, 4);
    stream.extend_from_slice(&record_prefix(1.0, 2.0, 100, 0, 9, 0));
    let mut reader = Reader::new(stream).unwrap();
    assert_eq!(Err(Error::ShortRead), reader.next_point());
}

#[test]
fn old_major_version_gates_optional_fields_off() {
    // decode gates on both major and minor: major 4 with minor 4
    // still reads nothing beyond the prefix
    let mut stream = header(4, 4);
    stream.extend_from_slice(&record_prefix(1.0, 2.0, 100, 0, 9, 0));
    let mut reader = Reader::new(stream).unwrap();
    let point = reader.next_point().unwrap().unwrap();
    assert_eq!(None, point.class_id);
    assert_eq!(None, point.rho);
    assert_eq!(None, point.reflectance);
    assert_eq!(None, reader.next_point().unwrap());
}

#[test]
fn mid_stream_error_is_surfaced_by_read_all_points() {
    let mut stream = header(5, 0);
    stream.extend_from_slice(&record_prefix(1.0, 2.0, 100, 3, 9, 0));
    stream.extend_from_slice(&record_prefix(2.0, 3.0, 200, 8, 9, 0)); // bad target type
    let mut reader = Reader::new(stream).unwrap();
    assert_eq!(Err(Error::InvalidTargetType(8)), reader.read_all_points());
}
