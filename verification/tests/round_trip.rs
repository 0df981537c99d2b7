use sdc::Point;
use sdc::Reader;
use sdc::TargetType;
use sdc::Writer;

fn sample_point(seed: u32) -> Point {
    let mut point = Point::new();
    point.time = (1.5f64 + seed as f64).to_bits();
    point.range = (10.25f32 * (seed + 1) as f32).to_bits();
    point.theta = (-0.5f32 - seed as f32).to_bits();
    point.x = (100.0f32 + seed as f32).to_bits();
    point.y = (200.0f32 - seed as f32).to_bits();
    point.z = (3.0f32 / (seed + 1) as f32).to_bits();
    point.amplitude = 1000 + seed as u16;
    point.width = 20 + seed as u16;
    point.target_type = TargetType::from_u8((seed % 4) as u8).unwrap();
    point.target = 1 + seed as u8;
    point.num_target = 4;
    point.rg_index = 7 * (seed + 1) as u16;
    point.facet_number = (seed % 4) as u8;
    point.high_channel = seed % 2 == 0;
    point
}

#[test]
fn write_then_read_back_is_bit_identical() {
    let mut writer = Writer::new();
    let written: Vec<Point> = (0..4).map(sample_point).collect();
    for point in &written {
        writer.write_point(point).unwrap();
    }
    let bytes = writer.into_bytes();
    assert_eq!(8 + 4 * 38, bytes.len());

    let mut reader = Reader::new(bytes).unwrap();
    let version = reader.version();
    assert_eq!(5, version.major);
    assert_eq!(0, version.minor);
    assert_eq!("", reader.header_information_as_str().unwrap());
    let read = reader.read_all_points().unwrap();
    assert_eq!(4, read.len());
    for (w, r) in written.iter().zip(read.iter()) {
        // bit-identical floats, equal plain fields
        assert_eq!(w, r);
    }
    // exhausted after the last record
    assert_eq!(None, reader.next_point().unwrap());
}

#[test]
fn file_writes_the_same_bytes_as_writer() {
    let point = sample_point(2);
    let mut writer = Writer::new();
    writer.write_point(&point).unwrap();
    let mut file = sdc::file::File::new();
    file.write_point(&point).unwrap();
    assert_eq!(writer.into_bytes(), file.into_bytes());
}

#[test]
fn point_iterator_walks_all_points() {
    let mut writer = Writer::new();
    for seed in 0..3 {
        writer.write_point(&sample_point(seed)).unwrap();
    }
    let reader = Reader::new(writer.into_bytes()).unwrap();
    let mut iterator = reader.into_iter();
    let mut count = 0;
    while let Some(point) = iterator.next().unwrap() {
        assert_eq!(sample_point(count), point);
        count += 1;
    }
    assert_eq!(3, count);
}
