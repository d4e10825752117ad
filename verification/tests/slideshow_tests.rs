use slideshow_rs::config::AppConfig;
use slideshow_rs::errors::{ConfigError, CouchDbError, MediaError};
use slideshow_rs::media_pipeline::Raster;
use slideshow_rs::model::{AppState, CouchDbAttachmentInfo, Slide, SlideKind, SlideshowDocument};
use slideshow_rs::slideshow::{
    take_refetch_flag, DocumentFetch, MediaFetch, SlideshowApp, Startup,
};
use slideshow_rs::sweep::CleanupAction;
use slideshow_rs::video::VideoStep;

const SECOND: u64 = 1_000_000_000;

fn config() -> AppConfig {
    AppConfig {
        couchdb_url: "http://db:5984".to_string(),
        tv_uuid: "tv-42".to_string(),
        manager_url: "http://manager".to_string(),
    }
}

fn slide(name: &str, type_: &str) -> Slide {
    Slide::new(name.to_string(), type_.to_string())
}

fn website(name: &str, url: &str) -> Slide {
    let mut s = slide(name, "website");
    s.url = Some(url.to_string());
    s
}

fn doc(slides: Option<Vec<Slide>>, attachments: Vec<&str>) -> SlideshowDocument {
    SlideshowDocument {
        _id: "tv-42".to_string(),
        _rev: "1-a".to_string(),
        slides,
        _attachments: Some(
            attachments.iter().map(|n| (n.to_string(), CouchDbAttachmentInfo {})).collect(),
        ),
    }
}

fn connected() -> SlideshowApp {
    SlideshowApp::new(Ok(config())).0
}

fn playing(slides: Vec<Slide>, now: u64) -> SlideshowApp {
    let mut app = connected();
    app.on_document_fetched(Ok(doc(Some(slides), vec![])), false, now);
    app
}

fn picture() -> Raster {
    Raster::new(1, 1, vec![1, 2, 3, 255]).expect("well formed")
}

#[test]
fn startup_with_a_configuration_connects_and_fetches() {
    let (app, startup) = SlideshowApp::new(Ok(config()));
    assert_eq!(
        startup,
        Startup { spawn_background: true, fetch: Some(DocumentFetch { immediate_cleanup: true }) }
    );
    assert_eq!(app.app_state(), &AppState::Connecting);
    assert_eq!(app.status_message(), "Fetching slideshow document...");
    assert!(app.slides().is_empty());
    assert_eq!(app.current_slide_index(), 0);
    assert!(app.slide_start_time().is_none());
    assert!(app.awaits_document());
    assert_eq!(app.app_config().expect("configured").tv_uuid, "tv-42");
    assert!(app.current_slide().is_none());
}

#[test]
fn startup_without_a_configuration_is_an_error() {
    let (app, startup) = SlideshowApp::new(Err(ConfigError::MissingKey("tv_uuid".to_string())));
    assert_eq!(startup, Startup { spawn_background: false, fetch: None });
    let text = "Failed to load configuration: Missing configuration key: 'tv_uuid'";
    assert_eq!(app.app_state(), &AppState::Error(text.to_string()));
    assert_eq!(app.status_message(), text);
    assert!(app.app_config().is_none());
    assert!(!app.awaits_document());
}

#[test]
fn fetch_without_configuration_leads_to_the_error_state() {
    let (mut app, _) = SlideshowApp::new(Err(ConfigError::Io("x".to_string())));
    assert_eq!(app.trigger_document_fetch(true), None);
    let text = "Cannot trigger document fetch: Configuration not loaded.";
    assert_eq!(app.app_state(), &AppState::Error(text.to_string()));
    assert_eq!(app.status_message(), text);
}

#[test]
fn fetch_with_configuration_connects() {
    let mut app = playing(vec![slide("a", "image")], 0);
    assert_eq!(app.trigger_document_fetch(false), Some(DocumentFetch { immediate_cleanup: false }));
    assert_eq!(app.app_state(), &AppState::Connecting);
    assert_eq!(app.status_message(), "Fetching slideshow document...");
}

#[test]
fn document_without_slides_shows_the_default_view() {
    let mut app = connected();
    let outcome = app.on_document_fetched(Ok(doc(Some(vec![]), vec![])), false, 5);
    assert!(outcome.dispatch.is_none());
    assert!(outcome.cleanup.is_none());
    assert_eq!(app.app_state(), &AppState::DefaultView);
    assert_eq!(app.status_message(), "No slides in document.");
    assert!(app.slide_start_time().is_none());
}

#[test]
fn document_without_slide_list_shows_the_default_view() {
    let mut app = connected();
    let outcome = app.on_document_fetched(Ok(doc(None, vec![])), false, 5);
    assert!(outcome.dispatch.is_none());
    assert_eq!(app.app_state(), &AppState::DefaultView);
    assert_eq!(app.status_message(), "No slides array in document.");
}

#[test]
fn document_with_slides_starts_the_slideshow_at_the_first_slide() {
    let mut app = connected();
    let slides = vec![slide("a", "image"), slide("b", "image")];
    let outcome = app.on_document_fetched(Ok(doc(Some(slides), vec![])), false, 77);
    assert_eq!(app.app_state(), &AppState::Slideshow);
    assert_eq!(app.status_message(), "Slideshow started.");
    assert_eq!(app.current_slide_index(), 0);
    assert_eq!(app.slide_start_time(), Some(77));
    assert_eq!(app.slides().len(), 2);
    assert_eq!(app.current_slide().expect("a slide is up").name, "a");
    let dispatch = outcome.dispatch.expect("the first slide is dispatched");
    assert!(dispatch.media.video_steps.is_empty());
    assert_eq!(dispatch.media.scroll_reset.as_deref(), Some("a"));
    assert!(matches!(&dispatch.media.fetch, MediaFetch::Image { key, .. } if key == "a"));
    let status = dispatch.status.expect("the slide is reported");
    assert_eq!(status.slide_id, "a");
    assert_eq!(status.slide_filename, "a");
    assert!(app.media_manager().is_pending("a"));
    assert!(outcome.cleanup.is_none());
}

#[test]
fn single_slide_starts_the_slideshow_too() {
    let mut app = connected();
    app.on_document_fetched(Ok(doc(Some(vec![website("w", "https://w")]), vec![])), false, 1);
    assert_eq!(app.app_state(), &AppState::Slideshow);
    assert_eq!(app.current_slide_index(), 0);
    assert_eq!(app.slide_start_time(), Some(1));
}

#[test]
fn missing_document_shows_the_default_view_and_names_the_display() {
    let mut app = connected();
    let error = CouchDbError::NotFound("Slideshow document for tv_uuid 'tv-42'".to_string());
    let outcome = app.on_document_fetched(Err(error), false, 5);
    assert!(outcome.dispatch.is_none());
    assert!(outcome.cleanup.is_none());
    assert_eq!(app.app_state(), &AppState::DefaultView);
    assert_eq!(
        app.status_message(),
        "This TV (UUID: tv-42) is not configured (doc ID Slideshow document for tv_uuid 'tv-42' \
         not found). Please add it to the slideshow manager at http://manager."
    );
    assert!(app.status_message().contains("tv-42"));
}

#[test]
fn other_fetch_failures_lead_to_the_error_state() {
    let failures = vec![
        CouchDbError::Reqwest("refused".to_string()),
        CouchDbError::SerdeJson("eof".to_string()),
        CouchDbError::UrlParse("bad".to_string()),
        CouchDbError::HttpError { status: 500, message: "boom".to_string() },
        CouchDbError::Generic("odd".to_string()),
    ];
    for failure in failures {
        let description = failure.message();
        let mut app = connected();
        app.on_document_fetched(Err(failure), true, 5);
        assert_eq!(
            app.app_state(),
            &AppState::Error(format!("Error fetching document: {}", description))
        );
        assert_eq!(app.status_message(), &description);
    }
}

#[test]
fn fetch_result_is_ignored_unless_connecting() {
    let mut app = playing(vec![slide("a", "image")], 10);
    let outcome =
        app.on_document_fetched(Ok(doc(Some(vec![slide("z", "image")]), vec!["x"])), true, 99);
    assert!(outcome.dispatch.is_none());
    assert!(outcome.cleanup.is_none());
    assert_eq!(app.app_state(), &AppState::Slideshow);
    assert_eq!(app.current_slide().expect("up").name, "a");
    assert_eq!(app.slide_start_time(), Some(10));
    app.on_document_fetch_failed(&CouchDbError::Generic("late".to_string()));
    assert_eq!(app.app_state(), &AppState::Slideshow);
}

#[test]
fn immediate_cleanup_hands_back_the_sweep_of_the_document() {
    let mut app = connected();
    let slides = vec![slide("b", "image")];
    let outcome = app.on_document_fetched(Ok(doc(Some(slides), vec!["a", "b", "c"])), true, 0);
    let sweep = outcome.cleanup.expect("a sweep was asked for");
    match sweep.next_action() {
        CleanupAction::Delete { name, rev } => {
            assert_eq!(name, "a");
            assert_eq!(rev, "1-a");
        }
        other => panic!("unexpected {:?}", other),
    }
}

#[test]
fn immediate_cleanup_is_handed_back_for_a_document_without_slides_too() {
    let mut app = connected();
    let outcome = app.on_document_fetched(Ok(doc(None, vec!["a"])), true, 0);
    assert!(outcome.dispatch.is_none());
    assert!(matches!(
        outcome.cleanup.expect("a sweep").next_action(),
        CleanupAction::Delete { .. }
    ));
}

#[test]
fn slide_gives_way_after_its_display_time() {
    let mut first = slide("a", "image");
    first.duration_nanos = Some(3 * SECOND);
    let mut app = playing(vec![first, slide("b", "image"), slide("c", "image")], 100);
    assert!(app.tick(100).is_none());
    assert!(app.tick(100 + 3 * SECOND).is_none());
    assert_eq!(app.current_slide_index(), 0);
    let dispatch = app.tick(101 + 3 * SECOND).expect("time is over");
    assert_eq!(app.current_slide_index(), 1);
    assert_eq!(app.slide_start_time(), Some(101 + 3 * SECOND));
    assert!(matches!(&dispatch.media.fetch, MediaFetch::Image { key, .. } if key == "b"));
    assert_eq!(dispatch.status.expect("reported").slide_id, "b");
    assert_eq!(dispatch.media.scroll_reset.as_deref(), Some("b"));
}

#[test]
fn slide_without_duration_stays_ten_seconds() {
    let mut app = playing(vec![slide("a", "image"), slide("b", "image")], 0);
    assert!(app.tick(10 * SECOND).is_none());
    assert!(app.tick(10 * SECOND + 1).is_some());
    assert_eq!(app.current_slide_index(), 1);
}

#[test]
fn after_the_last_slide_comes_the_first() {
    let mut app = playing(vec![slide("a", "image"), slide("b", "image")], 0);
    assert!(app.tick(11 * SECOND).is_some());
    assert_eq!(app.current_slide_index(), 1);
    let dispatch = app.tick(22 * SECOND).expect("time is over");
    assert_eq!(app.current_slide_index(), 0);
    assert!(matches!(dispatch.media.fetch, MediaFetch::Nothing));
    assert_eq!(dispatch.status.expect("reported").slide_id, "a");
}

#[test]
fn single_slide_advances_to_itself() {
    let mut app = playing(vec![slide("a", "image")], 0);
    let dispatch = app.tick(11 * SECOND).expect("time is over");
    assert_eq!(app.current_slide_index(), 0);
    assert_eq!(app.slide_start_time(), Some(11 * SECOND));
    assert!(matches!(dispatch.media.fetch, MediaFetch::Nothing));
}

#[test]
fn clock_that_runs_backwards_advances_nothing() {
    let mut app = playing(vec![slide("a", "image"), slide("b", "image")], 50 * SECOND);
    assert!(app.tick(0).is_none());
    assert_eq!(app.current_slide_index(), 0);
}

#[test]
fn tick_outside_the_slideshow_changes_nothing() {
    let mut app = connected();
    assert!(app.tick(1000 * SECOND).is_none());
    assert_eq!(app.app_state(), &AppState::Connecting);
    assert!(app.slide_start_time().is_none());
}

#[test]
fn slideshow_without_slides_falls_back_to_the_default_view_at_once() {
    let mut app = connected();
    app.set_app_state(AppState::Slideshow, "forced".to_string());
    assert!(app.slide_start_time().is_none());
    assert!(app.tick(9).is_none());
    assert_eq!(app.app_state(), &AppState::DefaultView);
    assert_eq!(app.status_message(), "No slides available");
    assert!(app.slide_start_time().is_none());
    assert_eq!(app.current_slide_index(), 0);
}

#[test]
fn slideshow_with_a_start_time_and_no_slides_falls_back_too() {
    let mut app = playing(vec![slide("a", "image")], 3);
    app.on_refetch_signal();
    app.set_app_state(AppState::Slideshow, "forced".to_string());
    assert_eq!(app.slide_start_time(), Some(3));
    assert!(app.tick(10).is_none());
    assert_eq!(app.app_state(), &AppState::DefaultView);
    assert_eq!(app.status_message(), "No slides available");
}

#[test]
fn media_of_each_kind_is_dispatched_in_its_way() {
    let mut app = playing(
        vec![
            slide("pic", "image"),
            slide("clip", "video"),
            website("page", "https://example.org"),
            slide("doc", "pdf"),
        ],
        0,
    );
    let d = app.tick(11 * SECOND).expect("to the video");
    assert!(matches!(&d.media.fetch, MediaFetch::Video { key } if key == "clip"));
    assert_eq!(app.status_message(), "Loading video: clip");
    assert_eq!(d.status.expect("reported").slide_filename, "clip");
    let d = app.tick(22 * SECOND).expect("to the website");
    assert!(matches!(&d.media.fetch, MediaFetch::Website { url, .. } if url == "https://example.org"));
    assert_eq!(d.status.expect("reported").slide_filename, "https://example.org");
    assert!(app.media_manager().is_pending("https://example.org"));
    let d = app.tick(33 * SECOND).expect("to the unsupported slide");
    assert!(matches!(d.media.fetch, MediaFetch::Nothing));
    assert_eq!(d.status.expect("reported").slide_id, "doc");
}

fn playing_with_fetch(slides: Vec<Slide>, now: u64) -> (SlideshowApp, u64) {
    let mut app = connected();
    let outcome = app.on_document_fetched(Ok(doc(Some(slides), vec![])), false, now);
    let fetch = match outcome.dispatch.expect("the first slide is dispatched").media.fetch {
        MediaFetch::Image { fetch, .. } | MediaFetch::Website { fetch, .. } => fetch,
        other => panic!("unexpected {:?}", other),
    };
    (app, fetch)
}

#[test]
fn media_is_fetched_once_while_it_is_on_its_way_or_cached() {
    let (mut app, fetch) = playing_with_fetch(vec![slide("pic", "image")], 0);
    assert!(matches!(app.fetch_current_slide_media().fetch, MediaFetch::Nothing));
    app.resolve_media("pic", fetch, Ok(picture()));
    assert!(matches!(app.fetch_current_slide_media().fetch, MediaFetch::Nothing));
    app.poll_media();
    assert!(app.media_manager().get_ready("pic", SlideKind::Image).is_some());
    assert!(matches!(app.fetch_current_slide_media().fetch, MediaFetch::Nothing));
}

#[test]
fn failed_media_is_fetched_again_when_asked_for() {
    let (mut app, fetch) = playing_with_fetch(vec![slide("pic", "image")], 0);
    app.resolve_media("pic", fetch, Err(MediaError::Download("timeout".to_string())));
    app.poll_media();
    assert!(!app.media_manager().is_pending("pic"));
    assert_eq!(app.app_state(), &AppState::Slideshow);
    assert!(matches!(
        &app.fetch_current_slide_media().fetch,
        MediaFetch::Image { key, fetch: again } if key == "pic" && *again != fetch
    ));
}

#[test]
fn result_that_comes_after_a_resync_is_dropped() {
    let (mut app, fetch) = playing_with_fetch(vec![slide("pic", "image")], 0);
    app.on_refetch_signal();
    app.resolve_media("pic", fetch, Ok(picture()));
    app.poll_media();
    assert!(!app.media_manager().is_pending("pic"));
    assert!(app.media_manager().get_image("pic").is_none());
    let outcome = app.on_document_fetched(Ok(doc(Some(vec![slide("pic", "image")]), vec![])), false, 9);
    let dispatch = outcome.dispatch.expect("dispatched");
    let anew = match dispatch.media.fetch {
        MediaFetch::Image { fetch, .. } => fetch,
        other => panic!("unexpected {:?}", other),
    };
    assert_ne!(anew, fetch);
    app.resolve_media("pic", fetch, Ok(picture()));
    app.poll_media();
    assert!(app.media_manager().is_pending("pic"));
    assert!(app.media_manager().get_image("pic").is_none());
    app.resolve_media("pic", anew, Ok(picture()));
    app.poll_media();
    assert!(app.media_manager().get_image("pic").is_some());
}

#[test]
fn media_dispatch_without_slides_does_nothing() {
    let mut app = connected();
    let dispatch = app.fetch_current_slide_media();
    assert!(dispatch.video_steps.is_empty());
    assert!(dispatch.scroll_reset.is_none());
    assert!(matches!(dispatch.fetch, MediaFetch::Nothing));
    assert!(app.update_tv_status_for_current_slide().is_none());
}

#[test]
fn video_session_is_torn_down_when_the_slide_changes() {
    let mut app = playing(vec![slide("clip", "video"), slide("pic", "image")], 0);
    assert!(app.cleanup_video_resources().is_empty());
    assert_eq!(app.on_video_ready("clip".to_string(), 640, 480), vec![VideoStep::SpawnWorker]);
    assert_eq!(app.status_message(), "Playing video: clip");
    assert_eq!(app.video().session().expect("runs").width, 640);
    app.on_video_frame();
    let dispatch = app.tick(11 * SECOND).expect("time is over");
    assert_eq!(
        dispatch.media.video_steps,
        vec![
            VideoStep::SignalCancel,
            VideoStep::CloseFrameChannel,
            VideoStep::JoinWorker,
            VideoStep::ReleaseTempFile,
            VideoStep::ClearTexture
        ]
    );
    assert!(app.video().session().is_none());
    assert!(app.cleanup_video_resources().is_empty());
}

#[test]
fn stale_video_session_is_restarted() {
    let mut app = playing(vec![slide("clip", "video")], 0);
    assert!(app.refresh_stale_video().is_none());
    app.on_video_ready("other".to_string(), 640, 480);
    let dispatch = app.refresh_stale_video().expect("the session is stale");
    assert_eq!(
        dispatch.video_steps,
        vec![VideoStep::SignalCancel, VideoStep::CloseFrameChannel, VideoStep::JoinWorker, VideoStep::ReleaseTempFile]
    );
    assert!(matches!(&dispatch.fetch, MediaFetch::Video { key } if key == "clip"));
    assert!(app.video().session().is_none());
    app.on_video_ready("clip".to_string(), 640, 480);
    assert!(app.refresh_stale_video().is_none());
    assert!(app.video().session().is_some());
}

#[test]
fn video_session_under_an_image_slide_is_left_alone() {
    let mut app = playing(vec![slide("pic", "image")], 0);
    app.on_video_ready("other".to_string(), 640, 480);
    assert!(app.refresh_stale_video().is_none());
    assert!(app.video().session().is_some());
}

#[test]
fn failed_video_setup_changes_the_message_only() {
    let mut app = playing(vec![slide("clip", "video")], 0);
    app.on_video_setup_failed("clip", &MediaError::Ffmpeg("no stream".to_string()));
    assert_eq!(app.app_state(), &AppState::Slideshow);
    assert_eq!(
        app.status_message(),
        "Error setting up video playback for clip: FFmpeg error: no stream"
    );
}

#[test]
fn change_signal_drops_everything_and_fetches_again() {
    let (mut app, fetch) = playing_with_fetch(vec![slide("pic", "image"), slide("clip", "video")], 0);
    app.resolve_media("pic", fetch, Ok(picture()));
    app.poll_media();
    assert!(app.media_manager().get_image("pic").is_some());
    app.tick(11 * SECOND);
    app.on_video_ready("clip".to_string(), 640, 480);
    let outcome = app.on_refetch_signal();
    assert_eq!(
        outcome.video_steps,
        vec![VideoStep::SignalCancel, VideoStep::CloseFrameChannel, VideoStep::JoinWorker, VideoStep::ReleaseTempFile]
    );
    assert_eq!(outcome.fetch, Some(DocumentFetch { immediate_cleanup: true }));
    assert_eq!(app.app_state(), &AppState::Connecting);
    assert_eq!(app.status_message(), "Fetching slideshow document...");
    assert!(app.slides().is_empty());
    assert_eq!(app.current_slide_index(), 0);
    assert!(app.media_manager().get_image("pic").is_none());
    assert!(!app.media_manager().is_pending("pic"));
    assert!(app.video().session().is_none());
    assert!(app.awaits_document());
}

#[test]
fn refetch_flag_is_read_and_lowered() {
    let mut flag = true;
    assert!(take_refetch_flag(&mut flag));
    assert!(!flag);
    assert!(!take_refetch_flag(&mut flag));
    assert!(!flag);
}

#[test]
fn state_and_message_are_set_together() {
    let mut app = connected();
    app.set_app_state(AppState::Error("e".to_string()), "m".to_string());
    assert_eq!(app.app_state(), &AppState::Error("e".to_string()));
    assert_eq!(app.status_message(), "m");
}
