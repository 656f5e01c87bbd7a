use breakout_rules::image::{decode_injected_image, image_format_hint, ImageFormatHint, InjectedImageError};

const TWO_PIXEL_PNG: [u8; 71] = [
    137, 80, 78, 71, 13, 10, 26, 10, 0, 0, 0, 13, 73, 72, 68, 82, 0, 0, 0, 2, 0, 0, 0, 1, 8, 6, 0, 0,
    0, 244, 34, 127, 138, 0, 0, 0, 14, 73, 68, 65, 84, 120, 156, 99, 248, 207, 192, 240, 31, 4, 1, 16,
    248, 3, 253, 78, 149, 193, 111, 0, 0, 0, 0, 73, 69, 78, 68, 174, 66, 96, 130,
];

#[test]
fn the_format_is_the_mime_type_or_png() {
    assert_eq!(image_format_hint(Some("image/jpeg".to_string())), ImageFormatHint::MimeType("image/jpeg".to_string()));
    assert_eq!(image_format_hint(Some(String::new())), ImageFormatHint::Extension("png".to_string()));
    assert_eq!(image_format_hint(None), ImageFormatHint::Extension("png".to_string()));
}

#[test]
fn no_bytes_give_no_image() {
    assert!(matches!(decode_injected_image(&[], None), Err(InjectedImageError::Empty)));
    assert!(matches!(decode_injected_image(&[], Some("image/png".to_string())), Err(InjectedImageError::Empty)));
}

#[test]
fn a_png_decodes_with_or_without_its_mime_type() {
    let image = decode_injected_image(&TWO_PIXEL_PNG, None).unwrap();
    assert_eq!((image.width(), image.height()), (2, 1));
    let image = decode_injected_image(&TWO_PIXEL_PNG, Some("image/png".to_string())).unwrap();
    assert_eq!((image.width(), image.height()), (2, 1));
}

#[test]
fn bytes_that_are_no_image_are_refused() {
    assert!(matches!(decode_injected_image(&[1, 2, 3, 4], None), Err(InjectedImageError::Undecodable(_))));
    assert!(matches!(
        decode_injected_image(&TWO_PIXEL_PNG, Some("text/plain".to_string())),
        Err(InjectedImageError::Undecodable(_))
    ));
}

#[test]
fn the_decoded_image_holds_the_pixels_of_the_bytes() {
    let image = decode_injected_image(&TWO_PIXEL_PNG, None).unwrap();
    let left = image.get_color_at(0, 0).unwrap().to_srgba();
    let right = image.get_color_at(1, 0).unwrap().to_srgba();
    assert_eq!((left.red, left.green, left.blue, left.alpha), (1.0, 0.0, 0.0, 1.0));
    assert_eq!((right.red, right.green, right.blue, right.alpha), (0.0, 1.0, 0.0, 1.0));
}
