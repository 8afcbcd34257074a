use image_generator::has_extension;
use image_generator::output_file_path;
use image_generator::Error;

#[test]
fn output_path_photo_jpg() {
    let path = output_file_path("/out", "photo.jpg").unwrap();
    assert_eq!(path, "/out/photo_green.jpg");
}

#[test]
fn output_path_keeps_only_file_name() {
    let path = output_file_path("/data/Output", "/data/in/MC105_1.png").unwrap();
    assert_eq!(path, "/data/Output/MC105_1_green.png");
}

#[test]
fn output_path_uses_last_dot_as_extension() {
    let path = output_file_path("/out", "archive.tar.gz").unwrap();
    assert_eq!(path, "/out/archive.tar_green.gz");
}

#[test]
fn output_path_rejects_missing_extension() {
    let err = output_file_path("/out", "photo").unwrap_err();
    assert!(matches!(err, Error::FormatError(_)));
}

#[test]
fn output_path_rejects_hidden_file_without_extension() {
    let err = output_file_path("/out", "/in/.hidden").unwrap_err();
    assert!(matches!(err, Error::FormatError(_)));
}

#[test]
fn output_path_rejects_dot_in_directory_only() {
    let err = output_file_path("/out", "/in.d/photo").unwrap_err();
    assert!(matches!(err, Error::FormatError(_)));
}

#[test]
fn output_path_rejects_directory_references() {
    let err = output_file_path("/out", "..").unwrap_err();
    assert!(matches!(err, Error::FormatError(_)));
    let err = output_file_path("/out", "/in/..").unwrap_err();
    assert!(matches!(err, Error::FormatError(_)));
}

#[test]
fn output_path_error_names_the_file() {
    let err = output_file_path("/out", "photo").unwrap_err();
    assert_eq!(err.message().as_str(), "File: \"photo\" has no file extension");
}

#[test]
fn extension_filter() {
    assert!(has_extension("photo.jpg"));
    assert!(has_extension("/in/photo.jpeg"));
    assert!(!has_extension("photo"));
    assert!(!has_extension("/in.d/photo"));
    assert!(!has_extension("/in/.hidden"));
    assert!(!has_extension(".."));
    assert!(!has_extension("/in/.."));
    assert!(!has_extension("."));
}

#[test]
fn output_path_is_deterministic() {
    let a = output_file_path("/out", "photo.jpg").unwrap();
    let b = output_file_path("/out", "photo.jpg").unwrap();
    assert_eq!(a, b);
}
