use sdc::codec::decode_record;
use sdc::codec::encode_record;
use sdc::codec::record_len;
use sdc::Point;
use sdc::TargetType;

fn point_for(minor: u16) -> Point {
    let mut point = Point::new();
    point.time = 123.625f64.to_bits();
    point.range = 55.5f32.to_bits();
    point.theta = (-1.0f32).to_bits();
    point.x = 10.0f32.to_bits();
    point.y = 20.0f32.to_bits();
    point.z = 30.0f32.to_bits();
    point.amplitude = 0xbeef;
    point.width = 0x1234;
    point.target_type = TargetType::Gaussian;
    point.target = 2;
    point.num_target = 3;
    point.rg_index = 0xabcd;
    point.facet_number = 3;
    point.high_channel = true;
    if minor >= 2 {
        point.class_id = Some(77);
    }
    if minor >= 3 {
        point.rho = Some(0.125f32.to_bits());
    }
    if minor >= 4 {
        point.reflectance = Some(-1234);
    }
    point
}

#[test]
fn record_len_formula() {
    assert_eq!(38, record_len(5, 0));
    assert_eq!(38, record_len(5, 1));
    assert_eq!(39, record_len(5, 2));
    assert_eq!(43, record_len(5, 3));
    assert_eq!(45, record_len(5, 4));
    assert_eq!(45, record_len(5, 9));
    // decode gates on the major version too
    assert_eq!(38, record_len(4, 4));
}

#[test]
fn record_round_trips_under_every_version() {
    for minor in 0u16..6u16 {
        let point = point_for(minor);
        let mut bytes = Vec::new();
        encode_record(&mut bytes, &point, 5, minor);
        assert_eq!(record_len(5, minor), bytes.len());
        let (decoded, end) = decode_record(&bytes, 0, 5, minor).unwrap().unwrap();
        assert_eq!(point, decoded);
        assert_eq!(bytes.len(), end);
    }
}

#[test]
fn encoded_bytes_are_the_documented_layout() {
    let point = point_for(4);
    let mut bytes = Vec::new();
    encode_record(&mut bytes, &point, 5, 4);
    assert_eq!(&123.625f64.to_le_bytes(), &bytes[0..8]);
    assert_eq!(&55.5f32.to_le_bytes(), &bytes[8..12]);
    assert_eq!(&(-1.0f32).to_le_bytes(), &bytes[12..16]);
    assert_eq!(&10.0f32.to_le_bytes(), &bytes[16..20]);
    assert_eq!(&20.0f32.to_le_bytes(), &bytes[20..24]);
    assert_eq!(&30.0f32.to_le_bytes(), &bytes[24..28]);
    assert_eq!(&0xbeefu16.to_le_bytes(), &bytes[28..30]);
    assert_eq!(&0x1234u16.to_le_bytes(), &bytes[30..32]);
    assert_eq!(2, bytes[32]); // Gaussian
    assert_eq!(2, bytes[33]);
    assert_eq!(3, bytes[34]);
    assert_eq!(&0xabcdu16.to_le_bytes(), &bytes[35..37]);
    assert_eq!(0b0100_0011, bytes[37]); // facet 3, high channel
    assert_eq!(77, bytes[38]);
    assert_eq!(&0.125f32.to_le_bytes(), &bytes[39..43]);
    assert_eq!(&(-1234i16).to_le_bytes(), &bytes[43..45]);
}

#[test]
fn decode_from_mid_stream_position() {
    let first = point_for(0);
    let mut second = point_for(0);
    second.amplitude = 1;
    let mut bytes = vec![0xaa, 0xbb]; // two bytes of unrelated prefix
    encode_record(&mut bytes, &first, 5, 0);
    encode_record(&mut bytes, &second, 5, 0);
    let (decoded, end) = decode_record(&bytes, 2, 5, 0).unwrap().unwrap();
    assert_eq!(first, decoded);
    assert_eq!(2 + 38, end);
    let (decoded, end) = decode_record(&bytes, end, 5, 0).unwrap().unwrap();
    assert_eq!(second, decoded);
    assert_eq!(bytes.len(), end);
    assert_eq!(None, decode_record(&bytes, end, 5, 0).unwrap());
}
