use slideshow_rs::errors::MediaError;
use slideshow_rs::media_pipeline::Raster;
use slideshow_rs::model::SlideKind;
use slideshow_rs::state_manager::{is_website_key, MediaCacheManager};

fn picture(shade: u8) -> Raster {
    Raster::new(1, 1, vec![shade, shade, shade, 255]).expect("four bytes for one pixel")
}

fn started(cache: &mut MediaCacheManager, key: &str, kind: SlideKind) -> u64 {
    cache.request(key, kind).expect("a fetch is started")
}

#[test]
fn first_request_starts_a_fetch_and_later_ones_do_not() {
    let mut cache = MediaCacheManager::new();
    assert!(!cache.is_pending("a.png"));
    assert_eq!(cache.request("a.png", SlideKind::Image), Some(0));
    assert!(cache.is_pending("a.png"));
    assert_eq!(cache.request("a.png", SlideKind::Image), None);
    assert_eq!(cache.request("a.png", SlideKind::Image), None);
    assert_eq!(cache.request("a.png", SlideKind::Website), None);
    assert_eq!(cache.request("b.png", SlideKind::Image), Some(1));
    assert_eq!(cache.request("a.png", SlideKind::Image), None);
}

#[test]
fn polling_keeps_a_fetch_that_is_under_way() {
    let mut cache = MediaCacheManager::new();
    let fetch = started(&mut cache, "a.png", SlideKind::Image);
    cache.poll();
    assert!(cache.is_pending("a.png"));
    assert_eq!(cache.request("a.png", SlideKind::Image), None);
    cache.resolve("a.png", fetch, Ok(picture(5)));
    cache.poll();
    assert!(cache.get_image("a.png").is_some());
}

#[test]
fn videos_and_unsupported_slides_are_not_fetched_through_the_cache() {
    let mut cache = MediaCacheManager::new();
    assert_eq!(cache.request("clip.mp4", SlideKind::Video), None);
    assert_eq!(cache.request("file.pdf", SlideKind::Unsupported), None);
    assert!(!cache.is_pending("clip.mp4"));
    assert!(!cache.is_pending("file.pdf"));
}

#[test]
fn fetched_image_moves_into_the_image_bucket() {
    let mut cache = MediaCacheManager::new();
    let fetch = started(&mut cache, "a.png", SlideKind::Image);
    cache.resolve("a.png", fetch, Ok(picture(7)));
    assert!(cache.is_pending("a.png"));
    assert!(cache.get_image("a.png").is_none());
    cache.poll();
    assert!(!cache.is_pending("a.png"));
    let got = cache.get_image("a.png").expect("the picture was promoted");
    assert_eq!(got.pixels(), &vec![7, 7, 7, 255]);
    assert!(cache.get_website_image("a.png").is_none());
    assert!(cache.get_ready("a.png", SlideKind::Image).is_some());
    assert!(cache.get_ready("a.png", SlideKind::Website).is_none());
    assert!(cache.get_ready("a.png", SlideKind::Video).is_none());
    assert_eq!(cache.request("a.png", SlideKind::Image), None);
}

#[test]
fn captured_website_moves_into_the_website_bucket() {
    let mut cache = MediaCacheManager::new();
    let fetch = started(&mut cache, "https://example.org/", SlideKind::Website);
    cache.resolve("https://example.org/", fetch, Ok(picture(9)));
    cache.poll();
    assert!(cache.get_image("https://example.org/").is_none());
    let got = cache.get_website_image("https://example.org/").expect("promoted");
    assert_eq!(got.pixels(), &vec![9, 9, 9, 255]);
    assert!(cache.get_ready("https://example.org/", SlideKind::Website).is_some());
    assert_eq!(cache.request("https://example.org/", SlideKind::Website), None);
}

#[test]
fn failed_fetch_is_forgotten_and_can_be_retried() {
    let mut cache = MediaCacheManager::new();
    let fetch = started(&mut cache, "a.png", SlideKind::Image);
    cache.resolve("a.png", fetch, Err(MediaError::Download("timeout".to_string())));
    assert!(cache.is_pending("a.png"));
    assert_eq!(cache.request("a.png", SlideKind::Image), None);
    cache.poll();
    assert!(!cache.is_pending("a.png"));
    assert!(cache.get_image("a.png").is_none());
    assert!(cache.get_website_image("a.png").is_none());
    assert_eq!(cache.request("a.png", SlideKind::Image), Some(fetch + 1));
}

#[test]
fn failed_capture_is_forgotten_and_can_be_retried() {
    let mut cache = MediaCacheManager::new();
    let fetch = started(&mut cache, "http://example.org", SlideKind::Website);
    cache.resolve("http://example.org", fetch, Err(MediaError::HeadlessChrome("crash".to_string())));
    cache.poll();
    assert!(cache.get_website_image("http://example.org").is_none());
    assert!(cache.get_image("http://example.org").is_none());
    assert!(cache.request("http://example.org", SlideKind::Website).is_some());
}

#[test]
fn poll_drains_every_ended_fetch_at_once() {
    let mut cache = MediaCacheManager::new();
    let a = started(&mut cache, "a", SlideKind::Image);
    let _b = started(&mut cache, "b", SlideKind::Image);
    let c = started(&mut cache, "c", SlideKind::Image);
    let d = started(&mut cache, "https://d", SlideKind::Website);
    cache.resolve("a", a, Ok(picture(1)));
    cache.resolve("c", c, Err(MediaError::Generic("broken".to_string())));
    cache.resolve("https://d", d, Ok(picture(4)));
    cache.poll();
    assert!(cache.get_image("a").is_some());
    assert!(cache.is_pending("b"));
    assert!(!cache.is_pending("a"));
    assert!(!cache.is_pending("c"));
    assert!(cache.get_image("c").is_none());
    assert!(cache.get_website_image("https://d").is_some());
}

#[test]
fn result_without_a_placeholder_is_dropped() {
    let mut cache = MediaCacheManager::new();
    cache.resolve("a", 0, Ok(picture(1)));
    assert!(!cache.is_pending("a"));
    cache.poll();
    assert!(cache.get_image("a").is_none());
    assert_eq!(cache.request("a", SlideKind::Image), Some(0));
}

#[test]
fn result_of_another_fetch_is_dropped() {
    let mut cache = MediaCacheManager::new();
    let fetch = started(&mut cache, "a", SlideKind::Image);
    cache.resolve("a", fetch + 1, Ok(picture(1)));
    cache.resolve("b", fetch, Ok(picture(1)));
    cache.poll();
    assert!(cache.is_pending("a"));
    assert!(!cache.is_pending("b"));
    assert!(cache.get_image("a").is_none());
    assert!(cache.get_image("b").is_none());
}

#[test]
fn second_result_of_the_same_fetch_is_dropped() {
    let mut cache = MediaCacheManager::new();
    let fetch = started(&mut cache, "a", SlideKind::Image);
    cache.resolve("a", fetch, Ok(picture(1)));
    cache.resolve("a", fetch, Ok(picture(2)));
    cache.resolve("a", fetch, Err(MediaError::Generic("late".to_string())));
    cache.poll();
    assert_eq!(cache.get_image("a").expect("cached").pixels(), &vec![1, 1, 1, 255]);
    cache.resolve("a", fetch, Ok(picture(3)));
    cache.poll();
    assert!(!cache.is_pending("a"));
    assert_eq!(cache.get_image("a").expect("cached").pixels(), &vec![1, 1, 1, 255]);
}

#[test]
fn late_result_after_the_fetches_were_forgotten_is_dropped() {
    let mut cache = MediaCacheManager::new();
    let fetch = started(&mut cache, "k", SlideKind::Image);
    cache.invalidate_all();
    cache.resolve("k", fetch, Ok(picture(1)));
    assert!(!cache.is_pending("k"));
    cache.poll();
    assert!(cache.get_image("k").is_none());
    assert!(cache.request("k", SlideKind::Image).is_some());
}

#[test]
fn late_result_after_the_key_was_asked_for_anew_is_dropped() {
    let mut cache = MediaCacheManager::new();
    let old = started(&mut cache, "k", SlideKind::Image);
    cache.invalidate_all();
    let new = started(&mut cache, "k", SlideKind::Image);
    assert_ne!(old, new);
    cache.resolve("k", old, Ok(picture(1)));
    cache.poll();
    assert!(cache.is_pending("k"));
    assert!(cache.get_image("k").is_none());
    cache.resolve("k", new, Ok(picture(2)));
    cache.poll();
    assert_eq!(cache.get_image("k").expect("cached").pixels(), &vec![2, 2, 2, 255]);
}

#[test]
fn later_fetch_replaces_the_picture_under_the_same_key() {
    let mut cache = MediaCacheManager::new();
    let first = started(&mut cache, "a", SlideKind::Website);
    cache.resolve("a", first, Ok(picture(1)));
    cache.poll();
    assert_eq!(cache.get_image("a").expect("cached").pixels(), &vec![1, 1, 1, 255]);
    let second = started(&mut cache, "a", SlideKind::Website);
    cache.resolve("a", second, Ok(picture(2)));
    cache.poll();
    assert_eq!(cache.get_image("a").expect("cached").pixels(), &vec![2, 2, 2, 255]);
}

#[test]
fn invalidate_all_empties_buckets_and_fetches() {
    let mut cache = MediaCacheManager::new();
    let a = started(&mut cache, "a", SlideKind::Image);
    let w = started(&mut cache, "https://w", SlideKind::Website);
    cache.resolve("a", a, Ok(picture(1)));
    cache.resolve("https://w", w, Ok(picture(2)));
    cache.poll();
    assert!(cache.request("b", SlideKind::Image).is_some());
    cache.invalidate_all();
    assert!(cache.get_image("a").is_none());
    assert!(cache.get_website_image("https://w").is_none());
    assert!(!cache.is_pending("b"));
    assert_eq!(cache.request("a", SlideKind::Image), Some(3));
    assert_eq!(cache.request("b", SlideKind::Image), Some(4));
}

#[test]
fn clearing_fetches_leaves_the_buckets() {
    let mut cache = MediaCacheManager::new();
    let a = started(&mut cache, "a", SlideKind::Image);
    cache.resolve("a", a, Ok(picture(1)));
    cache.poll();
    assert!(cache.request("b", SlideKind::Image).is_some());
    cache.clear_all_pending();
    assert!(!cache.is_pending("b"));
    assert!(cache.get_image("a").is_some());
}

#[test]
fn clearing_buckets_leaves_the_fetches() {
    let mut cache = MediaCacheManager::new();
    let a = started(&mut cache, "a", SlideKind::Image);
    cache.resolve("a", a, Ok(picture(1)));
    cache.poll();
    assert!(cache.request("b", SlideKind::Image).is_some());
    cache.clear_caches();
    assert!(cache.is_pending("b"));
    assert!(cache.get_image("a").is_none());
}

#[test]
fn website_keys_begin_with_a_web_scheme() {
    assert!(is_website_key("http://example.org"));
    assert!(is_website_key("https://example.org"));
    assert!(is_website_key("https://"));
    assert!(!is_website_key("https:/"));
    assert!(!is_website_key("ftp://example.org"));
    assert!(!is_website_key("HTTP://example.org"));
    assert!(!is_website_key("a.png"));
    assert!(!is_website_key(""));
    assert!(!is_website_key(" http://example.org"));
}
