use sdc::Point;

#[test]
fn channel_desc_byte_round_trips() {
    for facet_number in 0u8..4u8 {
        for &high_channel in &[false, true] {
            let mut point = Point::new();
            point.facet_number = facet_number;
            point.high_channel = high_channel;
            let byte = point.channel_desc_byte();
            assert_eq!(facet_number, byte & 0x3);
            assert_eq!(high_channel, byte & 0x40 == 0x40);
            // bits outside 0, 1 and 6 are always zero
            assert_eq!(0, byte & 0xbc);
        }
    }
}

#[test]
fn channel_desc_byte_values() {
    let mut point = Point::new();
    point.facet_number = 2;
    point.high_channel = true;
    assert_eq!(0b0100_0010, point.channel_desc_byte());
    point.high_channel = false;
    assert_eq!(0b0000_0010, point.channel_desc_byte());
}

#[test]
fn channel_desc_byte_masks_facet_number() {
    let mut point = Point::new();
    point.facet_number = 0xff;
    point.high_channel = false;
    assert_eq!(0x3, point.channel_desc_byte());
}
