use image_generator::parse_date;
use image_generator::Error;

#[test]
fn parse_cam_filename() {
    let caption = parse_date("CAM_A_20230704_153045_extra").unwrap();
    assert_eq!(caption, "04.07.2023, 15:30:45");
}

#[test]
fn parse_rejects_name_without_underscores() {
    let err = parse_date("onlyonepart").unwrap_err();
    assert!(matches!(err, Error::FormatError(_)));
    assert_eq!(
        err.message().as_str(),
        "File: \"onlyonepart\" has wrong name format"
    );
}

#[test]
fn parse_rejects_four_segments() {
    let err = parse_date("CAM_A_20230704_153045").unwrap_err();
    assert!(matches!(err, Error::FormatError(_)));
}

#[test]
fn parse_rejects_short_date_segment() {
    let err = parse_date("CAM_A_2023074_153045_extra").unwrap_err();
    assert!(matches!(err, Error::FormatError(_)));
}

#[test]
fn parse_rejects_long_date_segment() {
    let err = parse_date("CAM_A_202307041_153045_extra").unwrap_err();
    assert!(matches!(err, Error::FormatError(_)));
}

#[test]
fn parse_rejects_short_time_segment() {
    let err = parse_date("CAM_A_20230704_15304_extra").unwrap_err();
    assert!(matches!(err, Error::FormatError(_)));
}

#[test]
fn parse_keeps_remainder_verbatim() {
    // The fifth segment keeps any further underscores; they do not count.
    let caption = parse_date("MC105_x_20211231_235959_a_b_c").unwrap();
    assert_eq!(caption, "31.12.2021, 23:59:59");
}

#[test]
fn parse_takes_first_six_time_characters() {
    let caption = parse_date("CAM_A_20230704_1530459999_extra").unwrap();
    assert_eq!(caption, "04.07.2023, 15:30:45");
}

#[test]
fn parse_does_no_calendar_validation() {
    // Month 13 and second 61 are accepted verbatim: pure string slicing.
    let caption = parse_date("CAM_A_20231399_256161_x").unwrap();
    assert_eq!(caption, "99.13.2023, 25:61:61");
}

#[test]
fn parse_is_deterministic() {
    let a = parse_date("CAM_A_20230704_153045_extra").unwrap();
    let b = parse_date("CAM_A_20230704_153045_extra").unwrap();
    assert_eq!(a, b);
}
