use purpleifypdf::Color;
use purpleifypdf::is_background;
use purpleifypdf::transform_page_data;

#[test]
fn classification_boundary_is_166() {
    // All channels in [166, 255] classify as background.
    assert!(is_background(&[166, 166, 166, 0]));
    assert!(is_background(&[255, 255, 255, 0]));
    assert!(is_background(&[200, 250, 166, 0]));
    // Any channel at or below 165 excludes the pixel.
    assert!(!is_background(&[165, 255, 255, 0]));
    assert!(!is_background(&[255, 165, 255, 0]));
    assert!(!is_background(&[255, 255, 165, 0]));
    assert!(!is_background(&[0, 0, 0, 0]));
}

#[test]
fn alpha_is_ignored_by_classification() {
    assert!(is_background(&[200, 200, 200, 0]));
    assert!(is_background(&[200, 200, 200, 255]));
}

#[test]
fn normalizer_rewrites_background_pixels() {
    // Pixels are (blue, green, red, alpha); the background color's blue, green
    // and red bytes replace the first three, alpha stays.
    let mut data = vec![200, 210, 220, 7, 10, 210, 220, 9];
    transform_page_data(&mut data, Color::new(226, 97, 255));
    // First pixel is near-white: replaced with (b=255, g=97, r=226), alpha kept.
    // Second pixel has a dark blue channel: untouched.
    assert_eq!(data, vec![255, 97, 226, 7, 10, 210, 220, 9]);
}

#[test]
fn normalizer_leaves_trailing_bytes() {
    // Only complete 4-byte pixels are processed; a trailing partial pixel is
    // left exactly as it was.
    let mut data = vec![200, 200, 200, 0, 250, 250];
    transform_page_data(&mut data, Color::new(1, 2, 3));
    assert_eq!(data, vec![3, 2, 1, 0, 250, 250]);
}

#[test]
fn normalizer_handles_empty_buffer() {
    let mut data: Vec<u8> = Vec::new();
    transform_page_data(&mut data, Color::new(1, 2, 3));
    assert!(data.is_empty());
}
