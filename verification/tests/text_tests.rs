use slideshow_rs::errors::{AppError, ConfigError, CouchDbError, MediaError};
use slideshow_rs::text::{
    chars_of, contains, decimal, join2, list_contains, replace_all, same_text, starts_with,
};

fn s(text: &str) -> String {
    text.to_string()
}

#[test]
fn chars_are_listed_in_order() {
    assert_eq!(chars_of("a\u{e9}z"), vec!['a', '\u{e9}', 'z']);
    assert!(chars_of("").is_empty());
}

#[test]
fn contains_finds_a_text_anywhere() {
    assert!(contains("hello world", "hello"));
    assert!(contains("hello world", "o w"));
    assert!(contains("hello world", "world"));
    assert!(contains("hello world", ""));
    assert!(contains("", ""));
    assert!(!contains("hello world", "worlds"));
    assert!(!contains("", "a"));
    assert!(!contains("abc", "abcd"));
    assert!(contains("aab", "ab"));
}

#[test]
fn starts_with_looks_at_the_beginning_only() {
    assert!(starts_with("https://x", "https://"));
    assert!(starts_with("abc", ""));
    assert!(starts_with("abc", "abc"));
    assert!(!starts_with("abc", "abcd"));
    assert!(!starts_with("xabc", "abc"));
}

#[test]
fn same_text_compares_all_characters() {
    assert!(same_text("", ""));
    assert!(same_text("abc", "abc"));
    assert!(!same_text("abc", "abd"));
    assert!(!same_text("abc", "ab"));
    assert!(!same_text("ab", "abc"));
}

#[test]
fn join_puts_one_text_after_the_other() {
    assert_eq!(join2("ab", "cd"), "abcd");
    assert_eq!(join2("", "cd"), "cd");
    assert_eq!(join2("ab", ""), "ab");
}

#[test]
fn decimal_writes_numbers_without_leading_zeros() {
    assert_eq!(decimal(0), "0");
    assert_eq!(decimal(7), "7");
    assert_eq!(decimal(10), "10");
    assert_eq!(decimal(404), "404");
    assert_eq!(decimal(65535), "65535");
    assert_eq!(decimal(u64::MAX), "18446744073709551615");
}

#[test]
fn replace_all_replaces_every_occurrence_from_the_left() {
    assert_eq!(replace_all("at {datetime} and {datetime}", "{datetime}", "now"), "at now and now");
    assert_eq!(replace_all("nothing here", "{datetime}", "now"), "nothing here");
    assert_eq!(replace_all("", "{datetime}", "now"), "");
    assert_eq!(replace_all("aaa", "aa", "b"), "ba");
    assert_eq!(replace_all("aaaa", "aa", "b"), "bb");
    assert_eq!(replace_all("abc", "", "x"), "abc");
    assert_eq!(replace_all("abc", "abc", ""), "");
    assert_eq!(replace_all("{datetime", "{datetime}", "now"), "{datetime");
    assert_eq!(replace_all("x\u{e9}y", "\u{e9}", "e"), "xey");
}

#[test]
fn list_contains_looks_for_the_whole_text() {
    let list = vec![s("a"), s("bc")];
    assert!(list_contains(&list, "a"));
    assert!(list_contains(&list, "bc"));
    assert!(!list_contains(&list, "b"));
    assert!(!list_contains(&list, ""));
    assert!(!list_contains(&Vec::new(), "a"));
}

#[test]
fn configuration_failures_describe_themselves() {
    assert_eq!(ConfigError::Io(s("denied")).message(), "Configuration I/O error: denied");
    assert_eq!(ConfigError::Parse(s("line 3")).message(), "Configuration parse error: line 3");
    assert_eq!(
        ConfigError::MissingKey(s("tv_uuid")).message(),
        "Missing configuration key: 'tv_uuid'"
    );
}

#[test]
fn store_failures_describe_themselves() {
    assert_eq!(CouchDbError::Reqwest(s("refused")).message(), "CouchDB request error: refused");
    assert_eq!(
        CouchDbError::SerdeJson(s("eof")).message(),
        "CouchDB JSON (de)serialization error: eof"
    );
    assert_eq!(CouchDbError::UrlParse(s("empty host")).message(), "CouchDB URL parse error: empty host");
    assert_eq!(CouchDbError::NotFound(s("doc")).message(), "CouchDB resource not found: doc");
    assert_eq!(
        CouchDbError::HttpError { status: 503, message: s("busy") }.message(),
        "CouchDB HTTP error 503: busy"
    );
    assert_eq!(CouchDbError::Generic(s("odd")).message(), "CouchDB error: odd");
    assert!(CouchDbError::NotFound(s("doc")).is_not_found());
    assert!(!CouchDbError::Generic(s("doc")).is_not_found());
}

#[test]
fn media_failures_describe_themselves() {
    assert_eq!(MediaError::Io(s("x")).message(), "Media I/O error: x");
    assert_eq!(MediaError::Image(s("x")).message(), "Image processing error: x");
    assert_eq!(MediaError::Ffmpeg(s("x")).message(), "FFmpeg error: x");
    assert_eq!(MediaError::HeadlessChrome(s("x")).message(), "Headless Chrome error: x");
    assert_eq!(MediaError::TempFilePersist(s("x")).message(), "Temporary file persistence error: x");
    assert_eq!(MediaError::Download(s("x")).message(), "Media download error: x");
    assert_eq!(MediaError::ChannelSend(s("x")).message(), "Media frame channel send error: x");
    assert_eq!(MediaError::Generic(s("x")).message(), "Media error: x");
    assert_eq!(MediaError::UnsupportedFormat(s("x")).message(), "Unsupported media format: x");
}

#[test]
fn application_failures_wrap_the_others() {
    assert_eq!(
        AppError::from(ConfigError::Parse(s("p"))).message(),
        "Application Configuration Error: Configuration parse error: p"
    );
    assert_eq!(
        AppError::from(CouchDbError::Generic(s("g"))).message(),
        "Application CouchDB Error: CouchDB error: g"
    );
    assert_eq!(
        AppError::from(MediaError::Generic(s("m"))).message(),
        "Application Media Error: Media error: m"
    );
    assert_eq!(AppError::Generic(s("a")).message(), "Application Error: a");
    assert!(matches!(AppError::from(MediaError::Io(s("x"))), AppError::Media(MediaError::Io(_))));
}
