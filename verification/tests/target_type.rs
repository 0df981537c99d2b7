use sdc::Error;
use sdc::TargetType;

#[test]
fn target_type_codes() {
    assert_eq!(0, TargetType::CenterOfGravity.as_u8());
    assert_eq!(1, TargetType::Parabola.as_u8());
    assert_eq!(2, TargetType::Gaussian.as_u8());
    assert_eq!(3, TargetType::Peak.as_u8());
}

#[test]
fn target_type_round_trip() {
    for code in 0u8..4u8 {
        let t = TargetType::from_u8(code).unwrap();
        assert_eq!(code, t.as_u8());
    }
}

#[test]
fn target_type_rejects_unknown_codes() {
    assert_eq!(Err(Error::InvalidTargetType(4)), TargetType::from_u8(4));
    assert_eq!(Err(Error::InvalidTargetType(10)), TargetType::from_u8(10));
    assert_eq!(Err(Error::InvalidTargetType(255)), TargetType::from_u8(255));
}

#[test]
fn target_type_default_is_peak() {
    assert_eq!(TargetType::Peak, TargetType::default());
}
