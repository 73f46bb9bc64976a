use simplex_core::ui::{
    format_time_secs, is_image_content_type, CARD_WIDTH, LANDSCAPE_CARD_HEIGHT, LANDSCAPE_CARD_WIDTH,
    POSTER_HEIGHT, SQUARE_CARD_SIZE, VIEWPORT_MARGIN,
};
use simplex_core::ui::{thumbnail_accepted, MediaCardStyle};

#[test]
fn test_image_jpeg() {
    assert!(is_image_content_type("image/jpeg"));
}

#[test]
fn test_image_png() {
    assert!(is_image_content_type("image/png"));
}

#[test]
fn test_image_webp() {
    assert!(is_image_content_type("image/webp"));
}

#[test]
fn test_image_with_charset() {
    assert!(is_image_content_type("image/png; charset=utf-8"));
}

#[test]
fn test_text_html_not_image() {
    assert!(!is_image_content_type("text/html"));
}

#[test]
fn test_application_json_not_image() {
    assert!(!is_image_content_type("application/json"));
}

#[test]
fn test_empty_content_type_not_image() {
    assert!(!is_image_content_type(""));
}

#[test]
fn test_text_xml_not_image() {
    assert!(!is_image_content_type("text/xml"));
}

#[test]
fn test_format_time_zero() {
    assert_eq!(format_time_secs(0.0f64 as u64), "0:00");
}

#[test]
fn test_format_time_seconds_only() {
    assert_eq!(format_time_secs(45.0f64 as u64), "0:45");
}

#[test]
fn test_format_time_one_minute() {
    assert_eq!(format_time_secs(60.0f64 as u64), "1:00");
}

#[test]
fn test_format_time_minutes_and_seconds() {
    assert_eq!(format_time_secs(125.0f64 as u64), "2:05");
}

#[test]
fn test_format_time_under_one_hour() {
    assert_eq!(format_time_secs(3599.0f64 as u64), "59:59");
}

#[test]
fn test_format_time_exactly_one_hour() {
    assert_eq!(format_time_secs(3600.0f64 as u64), "1:00:00");
}

#[test]
fn test_format_time_hours_minutes_seconds() {
    assert_eq!(format_time_secs(3723.0f64 as u64), "1:02:03");
}

#[test]
fn test_format_time_multi_hour() {
    assert_eq!(format_time_secs(7384.0f64 as u64), "2:03:04");
}

#[test]
fn test_format_time_fractional_seconds_truncated() {
    assert_eq!(format_time_secs(90.7f64 as u64), "1:30");
}

#[test]
fn test_format_time_large_duration() {
    assert_eq!(format_time_secs(36000.0f64 as u64), "10:00:00");
}

#[test]
fn test_format_time_pads_seconds() {
    assert_eq!(format_time_secs(61.0f64 as u64), "1:01");
}

#[test]
fn test_format_time_pads_minutes_in_hour_format() {
    assert_eq!(format_time_secs(3660.0f64 as u64), "1:01:00");
}

#[test]
fn test_poster_aspect_ratio_is_2_3() {
    let ratio = POSTER_HEIGHT as f64 / CARD_WIDTH as f64;
    assert!(
        (ratio - 1.5).abs() < 0.01,
        "Expected 2:3 ratio (1.5), got {}",
        ratio
    );
}

#[test]
fn test_viewport_margin_positive() {
    assert!(VIEWPORT_MARGIN as f64 > 0.0);
}

#[test]
fn test_landscape_and_square_cards() {
    assert_eq!(LANDSCAPE_CARD_WIDTH * 9, LANDSCAPE_CARD_HEIGHT * 16);
    assert_eq!(SQUARE_CARD_SIZE, CARD_WIDTH);
}

#[test]
fn card_styles_have_their_sizes() {
    assert_eq!(MediaCardStyle::Poster.dimensions(), (180, 270));
    assert_eq!(MediaCardStyle::Square.dimensions(), (180, 180));
    assert_eq!(MediaCardStyle::Landscape.dimensions(), (240, 135));
}

#[test]
fn thumbnails_need_an_image_body() {
    assert!(thumbnail_accepted(true, "image/jpeg", 10));
    assert!(!thumbnail_accepted(false, "image/jpeg", 10));
    assert!(!thumbnail_accepted(true, "text/html", 10));
    assert!(!thumbnail_accepted(true, "image/png", 0));
}
