use image_generator::compose_canvas;
use image_generator::crop_image;
use image_generator::fill_rect;
use image_generator::mean_color;
use image_generator::Color;
use image_generator::Error;
use image_generator::Image;
use image_generator::Roi;

#[test]
fn mean_color_works() {
    let expected = Color { red: 42, green: 21, blue: 84 };
    let image = Image::new(10, 10, expected);
    let actual = mean_color(&image);
    assert_eq!(expected, actual);
}

#[test]
fn sampler_returns_fill_over_any_region() {
    let fill = Color { red: 7, green: 200, blue: 99 };
    let image = Image::new(8, 6, fill);
    let roi = Roi { x: 3, y: 1, width: 4, height: 5 };
    let cropped = crop_image(&image, &roi);
    assert_eq!(mean_color(&cropped), fill);
}

#[test]
fn mean_uses_floor_division() {
    // A 2x2 region of alternating black and white pixels averages to 127 per
    // channel: 510 / 4 rounds down, never to 128.
    let data = vec![0, 0, 0, 255, 255, 255, 0, 0, 0, 255, 255, 255];
    let image = Image::from_raw(2, 2, data).unwrap();
    let mean = mean_color(&image);
    assert_eq!(mean, Color { red: 127, green: 127, blue: 127 });
}

#[test]
fn mean_is_deterministic() {
    let data = vec![1, 2, 3, 200, 100, 50];
    let a = mean_color(&Image::from_raw(2, 1, data.clone()).unwrap());
    let b = mean_color(&Image::from_raw(2, 1, data).unwrap());
    assert_eq!(a, b);
}

#[test]
fn crop_cuts_the_region() {
    // A 3x1 image with three distinct pixels; the middle one is cut out.
    let data = vec![10, 11, 12, 20, 21, 22, 30, 31, 32];
    let image = Image::from_raw(3, 1, data).unwrap();
    let roi = Roi { x: 1, y: 0, width: 1, height: 1 };
    let cropped = crop_image(&image, &roi);
    assert_eq!(cropped.width(), 1);
    assert_eq!(cropped.height(), 1);
    assert_eq!(cropped.get_pixel(0, 0), Color { red: 20, green: 21, blue: 22 });
}

#[test]
fn from_raw_rejects_wrong_length() {
    let err = Image::from_raw(2, 2, vec![0, 0, 0]).unwrap_err();
    assert!(matches!(err, Error::InputError(_)));
}

#[test]
fn canvas_is_swatch_then_copy() {
    let pixel = Color { red: 9, green: 8, blue: 7 };
    let source = Image::new(2, 2, pixel);
    let fill = Color { red: 100, green: 101, blue: 102 };
    let canvas = compose_canvas(&source, fill);
    assert_eq!(canvas.width(), 4);
    assert_eq!(canvas.height(), 2);
    for y in 0..2 {
        for x in 0..2 {
            assert_eq!(canvas.get_pixel(x, y), fill);
            assert_eq!(canvas.get_pixel(x + 2, y), pixel);
        }
    }
}

#[test]
fn fill_rect_paints_inside_only() {
    let background = Color { red: 1, green: 1, blue: 1 };
    let box_color = Color { red: 250, green: 0, blue: 5 };
    let mut image = Image::new(4, 4, background);
    fill_rect(&mut image, 1, 1, 2, 2, box_color);
    for y in 0..4 {
        for x in 0..4 {
            let expected = if (1..3).contains(&x) && (1..3).contains(&y) {
                box_color
            } else {
                background
            };
            assert_eq!(image.get_pixel(x, y), expected);
        }
    }
}

#[test]
fn fill_rect_clips_to_bounds() {
    let background = Color { red: 0, green: 0, blue: 0 };
    let box_color = Color { red: 255, green: 255, blue: 255 };
    let mut image = Image::new(3, 3, background);
    fill_rect(&mut image, 2, 2, 100, 100, box_color);
    assert_eq!(image.get_pixel(2, 2), box_color);
    assert_eq!(image.get_pixel(1, 2), background);
    assert_eq!(image.get_pixel(2, 1), background);
    assert_eq!(image.width(), 3);
    assert_eq!(image.height(), 3);
}
