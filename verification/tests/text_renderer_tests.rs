use slideshow_rs::model::Slide;
use slideshow_rs::text_renderer::{
    parse_hex_color, parse_slide_text_properties, parse_text_position, Align, Color, FontAssets,
    TEXT_PADDING,
};

const WHITE: Color = Color { r: 255, g: 255, b: 255, a: 255 };

#[test]
fn default_fonts_are_14_24_and_36_points() {
    let fonts = FontAssets::new();
    assert_eq!((fonts.small, fonts.medium, fonts.large), (14, 24, 36));
}

#[test]
fn font_is_picked_by_the_size_label_whatever_its_case() {
    let fonts = FontAssets::new();
    assert_eq!(fonts.get_font_id(Some("small")), 14);
    assert_eq!(fonts.get_font_id(Some("LARGE")), 36);
    assert_eq!(fonts.get_font_id(Some("Medium")), 24);
    assert_eq!(fonts.get_font_id(Some("huge")), 24);
    assert_eq!(fonts.get_font_id(Some("")), 24);
    assert_eq!(fonts.get_font_id(None), 24);
    assert_eq!(fonts.font_for_lowercase(Some("small")), 14);
    assert_eq!(fonts.font_for_lowercase(Some("Small")), 24);
    assert_eq!(fonts.font_for_lowercase(None), 24);
}

#[test]
fn hex_colours_of_six_and_eight_digits_are_read() {
    assert_eq!(parse_hex_color("#FFFFFF"), Some(WHITE));
    assert_eq!(parse_hex_color("#000000"), Some(Color { r: 0, g: 0, b: 0, a: 255 }));
    assert_eq!(parse_hex_color("#00000080"), Some(Color { r: 0, g: 0, b: 0, a: 128 }));
    assert_eq!(parse_hex_color("#12aBcD"), Some(Color { r: 0x12, g: 0xab, b: 0xcd, a: 255 }));
    assert_eq!(parse_hex_color("#0a141eff"), Some(Color { r: 10, g: 20, b: 30, a: 255 }));
}

#[test]
fn short_hex_colours_double_each_digit() {
    assert_eq!(parse_hex_color("#fff"), Some(WHITE));
    assert_eq!(parse_hex_color("#1a0"), Some(Color { r: 0x11, g: 0xaa, b: 0, a: 255 }));
    assert_eq!(parse_hex_color("#1a08"), Some(Color { r: 0x11, g: 0xaa, b: 0, a: 0x88 }));
}

#[test]
fn anything_else_is_no_hex_colour() {
    assert_eq!(parse_hex_color(""), None);
    assert_eq!(parse_hex_color("#"), None);
    assert_eq!(parse_hex_color("FFFFFF"), None);
    assert_eq!(parse_hex_color("#FFFFF"), None);
    assert_eq!(parse_hex_color("#FFFFFFF"), None);
    assert_eq!(parse_hex_color("#FFFFFFFFF"), None);
    assert_eq!(parse_hex_color("#GGGGGG"), None);
    assert_eq!(parse_hex_color("#12345g"), None);
    assert_eq!(parse_hex_color(" #FFFFFF"), None);
    assert_eq!(parse_hex_color("#FFFFFF "), None);
    assert_eq!(parse_hex_color("white"), None);
    assert_eq!(parse_hex_color("#+1+2+3"), None);
    assert_eq!(parse_hex_color("  "), None);
}

#[test]
fn nine_positions_have_their_alignments() {
    assert_eq!(parse_text_position("top-left"), (Align::Min, Align::Min));
    assert_eq!(parse_text_position("top-center"), (Align::Center, Align::Min));
    assert_eq!(parse_text_position("top-right"), (Align::Max, Align::Min));
    assert_eq!(parse_text_position("center-left"), (Align::Min, Align::Center));
    assert_eq!(parse_text_position("center"), (Align::Center, Align::Center));
    assert_eq!(parse_text_position("center-center"), (Align::Center, Align::Center));
    assert_eq!(parse_text_position("center-right"), (Align::Max, Align::Center));
    assert_eq!(parse_text_position("bottom-left"), (Align::Min, Align::Max));
    assert_eq!(parse_text_position("bottom-center"), (Align::Center, Align::Max));
    assert_eq!(parse_text_position("bottom-right"), (Align::Max, Align::Max));
}

#[test]
fn unknown_position_is_bottom_center() {
    assert_eq!(parse_text_position("Top-Left"), (Align::Center, Align::Max));
    assert_eq!(parse_text_position(""), (Align::Center, Align::Max));
    assert_eq!(parse_text_position("middle"), (Align::Center, Align::Max));
}

#[test]
fn slide_without_text_attributes_gets_the_defaults() {
    let slide = Slide::new("a".to_string(), "image".to_string());
    let (style, layout) = parse_slide_text_properties(&slide, &FontAssets::new(), "2024-01-01 10:00:00");
    assert_eq!(style.font_size, 24);
    assert_eq!(style.color, WHITE);
    assert_eq!(style.background_color, None);
    assert!(!style.scroll);
    assert_eq!((layout.h_align, layout.v_align), (Align::Center, Align::Max));
    assert_eq!(layout.padding, 10);
    assert_eq!(TEXT_PADDING, 10);
    assert_eq!(layout.text_content, "");
}

#[test]
fn slide_text_attributes_are_taken_over() {
    let mut slide = Slide::new("a".to_string(), "image".to_string());
    slide.text = Some("It is {datetime}. Yes, {datetime}!".to_string());
    slide.text_size = Some("Large".to_string());
    slide.text_color = Some("#ff0000".to_string());
    slide.text_background_color = Some("#00000080".to_string());
    slide.text_position = Some("top-right".to_string());
    slide.scroll_text = Some(true);
    let (style, layout) = parse_slide_text_properties(&slide, &FontAssets::new(), "2024-01-01 10:00:00");
    assert_eq!(style.font_size, 36);
    assert_eq!(style.color, Color { r: 255, g: 0, b: 0, a: 255 });
    assert_eq!(style.background_color, Some(Color { r: 0, g: 0, b: 0, a: 128 }));
    assert!(style.scroll);
    assert_eq!((layout.h_align, layout.v_align), (Align::Max, Align::Min));
    assert_eq!(layout.text_content, "It is 2024-01-01 10:00:00. Yes, 2024-01-01 10:00:00!");
}

#[test]
fn colours_that_cannot_be_read_fall_back() {
    let mut slide = Slide::new("a".to_string(), "image".to_string());
    slide.text_color = Some("red".to_string());
    slide.text_background_color = Some("   ".to_string());
    slide.scroll_text = Some(false);
    let (style, _) = parse_slide_text_properties(&slide, &FontAssets::new(), "");
    assert_eq!(style.color, WHITE);
    assert_eq!(style.background_color, None);
    assert!(!style.scroll);
    slide.text_background_color = Some("blue".to_string());
    let (style, _) = parse_slide_text_properties(&slide, &FontAssets::new(), "");
    assert_eq!(style.background_color, None);
    slide.text_background_color = Some(String::new());
    let (style, _) = parse_slide_text_properties(&slide, &FontAssets::new(), "");
    assert_eq!(style.background_color, None);
}

#[test]
fn custom_fonts_are_used() {
    let fonts = FontAssets { small: 1, medium: 2, large: 3 };
    let mut slide = Slide::new("a".to_string(), "image".to_string());
    slide.text_size = Some("small".to_string());
    let (style, _) = parse_slide_text_properties(&slide, &fonts, "");
    assert_eq!(style.font_size, 1);
}
