use purpleair::{parse_optional_status, parse_status, SensorError, Status};

#[test]
fn from_u8_maps_the_four_codes() {
    assert_eq!(Status::from_u8(0), Some(Status::NotConfigured));
    assert_eq!(Status::from_u8(1), Some(Status::InProgress));
    assert_eq!(Status::from_u8(2), Some(Status::Success));
    assert_eq!(Status::from_u8(3), Some(Status::Error));
}

#[test]
fn from_u8_rejects_every_other_code() {
    for n in 4u8..=255 {
        assert_eq!(Status::from_u8(n), None);
    }
}

#[test]
fn code_is_the_wire_integer() {
    assert_eq!(Status::NotConfigured.code(), 0);
    assert_eq!(Status::InProgress.code(), 1);
    assert_eq!(Status::Success.code(), 2);
    assert_eq!(Status::Error.code(), 3);
    for n in 0u8..=3 {
        assert_eq!(Status::from_u8(n).unwrap().code(), n);
    }
}

#[test]
fn mandatory_status_decodes_zero_to_three() {
    assert_eq!(parse_status(0), Ok(Status::NotConfigured));
    assert_eq!(parse_status(1), Ok(Status::InProgress));
    assert_eq!(parse_status(2), Ok(Status::Success));
    assert_eq!(parse_status(3), Ok(Status::Error));
}

#[test]
fn mandatory_status_rejects_what_is_outside() {
    assert_eq!(parse_status(4), Err(SensorError::UnrecognizedStatusCode(4)));
    assert_eq!(parse_status(255), Err(SensorError::UnrecognizedStatusCode(255)));
    assert_eq!(parse_status(u64::MAX), Err(SensorError::UnrecognizedStatusCode(u64::MAX)));
}

#[test]
fn mandatory_status_does_not_wrap_large_numbers() {
    // 256 and 258 end in the bytes 0 and 2: they are no status for that.
    assert_eq!(parse_status(256), Err(SensorError::UnrecognizedStatusCode(256)));
    assert_eq!(parse_status(258), Err(SensorError::UnrecognizedStatusCode(258)));
}

#[test]
fn optional_status_absent_is_no_value_and_no_error() {
    assert_eq!(parse_optional_status(None), Ok(None));
}

#[test]
fn optional_status_present_follows_the_same_rule() {
    assert_eq!(parse_optional_status(Some(0)), Ok(Some(Status::NotConfigured)));
    assert_eq!(parse_optional_status(Some(1)), Ok(Some(Status::InProgress)));
    assert_eq!(parse_optional_status(Some(2)), Ok(Some(Status::Success)));
    assert_eq!(parse_optional_status(Some(3)), Ok(Some(Status::Error)));
    assert_eq!(parse_optional_status(Some(4)), Err(SensorError::UnrecognizedStatusCode(4)));
    assert_eq!(parse_optional_status(Some(300)), Err(SensorError::UnrecognizedStatusCode(300)));
}
