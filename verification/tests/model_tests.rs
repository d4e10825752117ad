use slideshow_rs::model::{
    get_attachment_key_from_slide, AppState, Slide, SlideKind, SlideType, SlideshowDocument,
    DEFAULT_SLIDE_DURATION_NANOS,
};

fn slide(name: &str, type_: &str) -> Slide {
    Slide::new(name.to_string(), type_.to_string())
}

#[test]
fn kind_is_read_from_the_type_label_whatever_its_case() {
    assert_eq!(SlideKind::from_type("image"), SlideKind::Image);
    assert_eq!(SlideKind::from_type("Picture"), SlideKind::Image);
    assert_eq!(SlideKind::from_type("VIDEO"), SlideKind::Video);
    assert_eq!(SlideKind::from_type("WebSite"), SlideKind::Website);
    assert_eq!(SlideKind::from_type("pdf"), SlideKind::Unsupported);
    assert_eq!(SlideKind::from_type(""), SlideKind::Unsupported);
}

#[test]
fn lowercase_label_is_matched_exactly() {
    assert_eq!(SlideKind::from_lowercase_label("image"), SlideKind::Image);
    assert_eq!(SlideKind::from_lowercase_label("picture"), SlideKind::Image);
    assert_eq!(SlideKind::from_lowercase_label("video"), SlideKind::Video);
    assert_eq!(SlideKind::from_lowercase_label("website"), SlideKind::Website);
    assert_eq!(SlideKind::from_lowercase_label("Image"), SlideKind::Unsupported);
    assert_eq!(SlideKind::from_lowercase_label("images"), SlideKind::Unsupported);
}

#[test]
fn only_images_and_videos_reference_attachments() {
    assert!(SlideKind::Image.references_attachment());
    assert!(SlideKind::Video.references_attachment());
    assert!(!SlideKind::Website.references_attachment());
    assert!(!SlideKind::Unsupported.references_attachment());
}

#[test]
fn new_slide_has_its_kind_and_no_attributes() {
    let s = slide("intro", "Video");
    assert_eq!(s.name, "intro");
    assert_eq!(s.type_.label(), "Video");
    assert_eq!(s.type_.kind(), SlideKind::Video);
    assert_eq!(s.get_kind(), SlideKind::Video);
    assert!(s.duration_nanos.is_none());
    assert!(s.text.is_none());
    assert!(s.url.is_none());
    assert!(s.filename.is_none());
    assert!(s.scroll_text.is_none());
}

#[test]
fn slide_type_holds_the_label_and_the_kind_that_it_names() {
    let t = SlideType::new("PICTURE".to_string());
    assert_eq!(t.label(), "PICTURE");
    assert_eq!(t.kind(), SlideKind::Image);
    let mut s = slide("a", "image");
    s.type_ = SlideType::new("website".to_string());
    assert_eq!(s.get_kind(), SlideKind::Website);
    assert_eq!(s.type_.label(), "website");
}

#[test]
fn attachment_key_prefers_a_filename_that_is_not_empty() {
    let mut s = slide("friendly name", "image");
    assert_eq!(get_attachment_key_from_slide(&s), "friendly name");
    s.filename = Some(String::new());
    assert_eq!(get_attachment_key_from_slide(&s), "friendly name");
    s.filename = Some("a.png".to_string());
    assert_eq!(get_attachment_key_from_slide(&s), "a.png");
}

#[test]
fn media_key_of_a_website_is_its_address() {
    let mut s = slide("news", "website");
    assert_eq!(s.get_media_key(), "");
    s.url = Some("https://example.org/".to_string());
    s.filename = Some("ignored.png".to_string());
    assert_eq!(s.get_media_key(), "https://example.org/");
}

#[test]
fn media_key_of_an_image_is_its_attachment_key() {
    let mut s = slide("pic", "picture");
    s.url = Some("https://example.org/".to_string());
    assert_eq!(s.get_media_key(), "pic");
    s.filename = Some("pic.jpg".to_string());
    assert_eq!(s.get_media_key(), "pic.jpg");
}

#[test]
fn display_time_defaults_to_ten_seconds() {
    let mut s = slide("pic", "image");
    assert_eq!(DEFAULT_SLIDE_DURATION_NANOS, 10_000_000_000);
    assert_eq!(s.get_display_nanos(), 10_000_000_000);
    s.duration_nanos = Some(2_500_000_000);
    assert_eq!(s.get_display_nanos(), 2_500_000_000);
    s.duration_nanos = Some(0);
    assert_eq!(s.get_display_nanos(), 0);
}

#[test]
fn app_state_predicates_tell_the_states_apart() {
    assert!(AppState::Connecting.is_connecting());
    assert!(AppState::Slideshow.is_slideshow());
    assert!(AppState::DefaultView.is_default_view());
    assert!(AppState::Error("x".to_string()).is_error());
    assert!(!AppState::Connecting.is_error());
    assert!(!AppState::Error("x".to_string()).is_connecting());
    assert_eq!(AppState::Error("x".to_string()).duplicate(), AppState::Error("x".to_string()));
    assert_eq!(AppState::Slideshow.duplicate(), AppState::Slideshow);
}

#[test]
fn document_holds_slides_and_attachment_names() {
    let doc = SlideshowDocument {
        _id: "tv1".to_string(),
        _rev: "1-a".to_string(),
        slides: Some(vec![slide("a", "image")]),
        _attachments: None,
    };
    assert_eq!(doc.slides.as_ref().map(|s| s.len()), Some(1));
    assert!(doc._attachments.is_none());
}
