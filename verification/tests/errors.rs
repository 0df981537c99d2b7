use sdc::Error;

#[test]
fn error_descriptions() {
    assert_eq!("short read", Error::ShortRead.description());
    assert_eq!(
        "invalid header information",
        Error::InvalidHeaderInformation.description()
    );
    assert_eq!("invalid target type", Error::InvalidTargetType(9).description());
    assert_eq!(
        "header information is not valid UTF-8",
        Error::TextDecodingFailure.description()
    );
}
