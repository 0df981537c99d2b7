//! The streams of these tests stand in for sample `.sdc` files: a
//! version 5.0 file of four points, and a version 5.2 file of four
//! points whose first record carries class id 4.

use sdc::Reader;
use sdc::Writer;

fn four_points_5_0() -> Vec<u8> {
    let mut writer = Writer::new();
    for seed in 0..4u16 {
        let mut point = sdc::Point::new();
        point.time = (0.5f64 + seed as f64).to_bits();
        point.amplitude = 100 + seed;
        writer.write_point(&point).unwrap();
    }
    writer.into_bytes()
}

fn four_points_5_2() -> Vec<u8> {
    // same four records, under a 5.2 header and with a class id each
    let base = four_points_5_0();
    let mut bytes = Vec::new();
    bytes.extend_from_slice(&8u32.to_le_bytes());
    bytes.extend_from_slice(&5u16.to_le_bytes());
    bytes.extend_from_slice(&2u16.to_le_bytes());
    for i in 0..4 {
        bytes.extend_from_slice(&base[8 + i * 38..8 + (i + 1) * 38]);
        bytes.push(4 + i as u8);
    }
    bytes
}

#[test]
fn read_points() {
    let mut reader = Reader::new(four_points_5_0()).unwrap();
    let points = reader.read_all_points().unwrap();
    assert_eq!(4, points.len());
}

#[test]
fn read_52() {
    let mut reader = Reader::new(four_points_5_2()).unwrap();
    let points = reader.read_all_points().unwrap();
    assert_eq!(4, points.len());
    assert_eq!(4, points[0].class_id.unwrap());
}
