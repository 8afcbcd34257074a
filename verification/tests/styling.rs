use image_generator::color_string;
use image_generator::glyph_span;
use image_generator::help;
use image_generator::location_for;
use image_generator::location_map;
use image_generator::Color;
use image_generator::Error;
use image_generator::FontStyle;
use image_generator::Roi;

#[test]
fn color_text_form() {
    assert_eq!(color_string(Color { red: 42, green: 21, blue: 84 }), "Rgb([42, 21, 84])");
    assert_eq!(color_string(Color { red: 0, green: 0, blue: 0 }), "Rgb([0, 0, 0])");
    assert_eq!(color_string(Color { red: 255, green: 255, blue: 255 }), "Rgb([255, 255, 255])");
    assert_eq!(color_string(Color { red: 10, green: 100, blue: 9 }), "Rgb([10, 100, 9])");
}

#[test]
fn locations_resolve_known_cameras() {
    let map = location_map();
    let loc = location_for(&map, &String::from("MC105")).unwrap();
    assert_eq!(loc, "Punkaharju, landscape");
    let loc = location_for(&map, &String::from("MC117-1")).unwrap();
    assert_eq!(loc, "Paljakka, landscape");
    let loc = location_for(&map, &String::from("MC106")).unwrap();
    assert_eq!(loc, "Hyytiälä, crown");
}

#[test]
fn locations_reject_unknown_camera() {
    let map = location_map();
    assert!(location_for(&map, &String::from("MC999")).is_none());
    assert!(location_for(&map, &String::from("")).is_none());
}

#[test]
fn error_message_is_carried() {
    let err = Error::IoError(String::from("disk trouble"));
    assert_eq!(err.message().as_str(), "disk trouble");
}

#[test]
fn roi_from_four_values() {
    let roi = Roi::from_values(&vec![100, 100, 100, 100]).unwrap();
    assert_eq!(roi, Roi { x: 100, y: 100, width: 100, height: 100 });
}

#[test]
fn roi_rejects_wrong_count() {
    let err = Roi::from_values(&vec![1, 2, 3]).unwrap_err();
    assert!(matches!(err, Error::ConfigError(_)));
}

#[test]
fn roi_rejects_negative_origin() {
    let err = Roi::from_values(&vec![-1, 0, 10, 10]).unwrap_err();
    assert!(matches!(err, Error::ConfigError(_)));
}

#[test]
fn roi_rejects_empty_size() {
    let err = Roi::from_values(&vec![0, 0, 0, 10]).unwrap_err();
    assert!(matches!(err, Error::ConfigError(_)));
    let err = Roi::from_values(&vec![0, 0, 10, 0]).unwrap_err();
    assert!(matches!(err, Error::ConfigError(_)));
}

#[test]
fn roi_accepts_largest_coordinates() {
    let max = u32::MAX as i64;
    let roi = Roi::from_values(&vec![max, max, max, max]).unwrap();
    assert_eq!(roi.width, u32::MAX);
}

#[test]
fn glyph_span_adds_and_clamps() {
    assert_eq!(glyph_span(120, 8), 128);
    assert_eq!(glyph_span(0, 0), 0);
    assert_eq!(glyph_span(u32::MAX - 1, 5), u32::MAX);
}

#[test]
fn help_names_the_program() {
    assert!(help().starts_with("usage: image-generator"));
}

#[test]
fn font_style_rejects_bad_font_data() {
    let err = FontStyle::new(vec![1, 2, 3, 4], rusttype::Scale::uniform(14.0), 14).unwrap_err();
    assert!(matches!(err, Error::ConfigError(_)));
}
