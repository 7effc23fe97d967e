use purpleair::{is_clock_shaped, parse_nonstandard_datetime, SensorError, Timestamp};

#[test]
fn device_clock_is_read_as_utc() {
    let t = parse_nonstandard_datetime("2025/06/29T22:44:14z").unwrap();
    assert_eq!(t, Timestamp { seconds: 1_751_237_054, nanos: 0 });
    let utc = chrono::DateTime::from_timestamp(t.seconds, t.nanos).unwrap();
    assert_eq!(utc.to_rfc3339(), "2025-06-29T22:44:14+00:00");
}

#[test]
fn epoch_is_second_zero() {
    assert_eq!(
        parse_nonstandard_datetime("1970/01/01T00:00:00z"),
        Ok(Timestamp { seconds: 0, nanos: 0 })
    );
    assert_eq!(
        parse_nonstandard_datetime("1969/12/31T23:59:59z"),
        Ok(Timestamp { seconds: -1, nanos: 0 })
    );
}

#[test]
fn trailing_z_may_be_left_out() {
    assert_eq!(
        parse_nonstandard_datetime("2025/06/29T22:44:14"),
        Ok(Timestamp { seconds: 1_751_237_054, nanos: 0 })
    );
}

#[test]
fn only_one_trailing_z_is_dropped() {
    assert_eq!(
        parse_nonstandard_datetime("2025/06/29T22:44:14zz"),
        Err(SensorError::MalformedTimestamp)
    );
}

#[test]
fn hyphenated_date_is_malformed() {
    assert_eq!(
        parse_nonstandard_datetime("2025-06-29T22:44:14z"),
        Err(SensorError::MalformedTimestamp)
    );
}

#[test]
fn missing_t_separator_is_malformed() {
    assert_eq!(
        parse_nonstandard_datetime("2025/06/29 22:44:14z"),
        Err(SensorError::MalformedTimestamp)
    );
    assert_eq!(
        parse_nonstandard_datetime("2025/06/2922:44:14z"),
        Err(SensorError::MalformedTimestamp)
    );
}

#[test]
fn garbage_is_malformed() {
    for text in [
        "",
        "z",
        "yesterday",
        "2025/06/29T22:44:14Z",
        "2025/06/29T22:44:14z and more",
        "2025/06/29T22:44:xxz",
        "2025/13/29T22:44:14z",
        "2025/06/31T22:44:14z",
        "2025/06/29T24:00:00z",
        "2025/06/29T22:44z",
    ] {
        assert_eq!(
            parse_nonstandard_datetime(text),
            Err(SensorError::MalformedTimestamp),
            "{:?}",
            text
        );
    }
}

#[test]
fn leap_second_keeps_its_mark() {
    assert_eq!(
        parse_nonstandard_datetime("2016/12/31T23:59:60z"),
        Ok(Timestamp { seconds: 1_483_228_799, nanos: 1_000_000_000 })
    );
}

#[test]
fn a_field_of_the_wrong_width_is_malformed() {
    for text in [
        "2025/6/29T22:44:14z",
        "2025/06/9T22:44:14z",
        "2025/06/29T2:44:14z",
        "2025/06/29T22:4:14z",
        "2025/06/29T22:44:4z",
        "25/06/29T22:44:14z",
        "02025/06/29T22:44:14z",
        "2025/006/29T22:44:14z",
        "2025/06/29T22:44:014z",
    ] {
        assert_eq!(
            parse_nonstandard_datetime(text),
            Err(SensorError::MalformedTimestamp),
            "{:?}",
            text
        );
    }
}

#[test]
fn a_blank_or_a_sign_in_front_is_malformed() {
    for text in [
        " 2025/06/29T22:44:14z",
        "+2025/06/29T22:44:14z",
        "-2025/06/29T22:44:14z",
        "\t2025/06/29T22:44:14z",
        "2025/06/29T22:44:14 z",
        "2025/06/29T22:44:14z ",
        "2025/ 6/29T22:44:14z",
        "2025/06/29T 2:44:14z",
        "+025/06/29T22:44:14z",
    ] {
        assert_eq!(
            parse_nonstandard_datetime(text),
            Err(SensorError::MalformedTimestamp),
            "{:?}",
            text
        );
    }
}

#[test]
fn digits_of_other_scripts_are_no_digits() {
    assert_eq!(
        parse_nonstandard_datetime("\u{0662}025/06/29T22:44:14z"),
        Err(SensorError::MalformedTimestamp)
    );
}

#[test]
fn the_shape_is_nineteen_characters_with_five_separators() {
    assert!(is_clock_shaped("2025/06/29T22:44:14"));
    assert!(is_clock_shaped("0000/00/00T00:00:00"));
    assert!(is_clock_shaped("9999/99/99T99:99:99"));
    assert!(!is_clock_shaped("2025/06/29T22:44:14z"));
    assert!(!is_clock_shaped("2025/06/29T22:44:1"));
    assert!(!is_clock_shaped(""));
    assert!(!is_clock_shaped("2025-06/29T22:44:14"));
    assert!(!is_clock_shaped("2025/06-29T22:44:14"));
    assert!(!is_clock_shaped("2025/06/29t22:44:14"));
    assert!(!is_clock_shaped("2025/06/29 22:44:14"));
    assert!(!is_clock_shaped("2025/06/29T22.44:14"));
    assert!(!is_clock_shaped("2025/06/29T22:44.14"));
    assert!(!is_clock_shaped("2025/6/29T22:44:14z"));
    assert!(!is_clock_shaped("2O25/06/29T22:44:14"));
    assert!(!is_clock_shaped("2025/06/29T22:44:1/"));
    assert!(!is_clock_shaped("2025/06/29T22:44::4"));
}

#[test]
fn a_well_shaped_text_that_is_no_date_is_malformed() {
    for text in [
        "2025/00/29T22:44:14z",
        "2025/02/30T22:44:14z",
        "2025/06/29T22:60:14z",
        "2025/06/29T22:44:61z",
        "9999/99/99T99:99:99z",
    ] {
        assert_eq!(
            parse_nonstandard_datetime(text),
            Err(SensorError::MalformedTimestamp),
            "{:?}",
            text
        );
    }
    assert_eq!(
        parse_nonstandard_datetime("0000/01/01T00:00:00z"),
        Ok(Timestamp { seconds: -62_167_219_200, nanos: 0 })
    );
    assert_eq!(
        parse_nonstandard_datetime("9999/12/31T23:59:59z"),
        Ok(Timestamp { seconds: 253_402_300_799, nanos: 0 })
    );
}
