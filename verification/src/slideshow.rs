//! The client's state machine: what is on screen, which slide is up and
//! since when, and what has to be fetched. Every operation takes what
//! happened and returns what the caller is to do about it; nothing here
//! waits or talks to the outside.

use crate::config::AppConfig;
use crate::errors::{ConfigError, CouchDbError, CouchDbFailure, MediaError};
use crate::media_pipeline::Raster;
use crate::model::{AppState, AppStateView, Slide, SlideKind, SlideshowDocument};
use crate::state_manager::{CacheEntry, CacheState, MediaCacheManager};
use crate::sweep::{CleanupSweep, SweepState};
use crate::reclaim::unused_of;
use crate::text::{contains_text, join2, occurs_at};
use crate::video::{PipelineState, SessionView, VideoPipeline, VideoStep};
use vstd::prelude::*;

verus! {

/// The media that is to be fetched for the slide that is up.
#[derive(Debug)]
pub enum MediaFetch {
    /// Nothing: the media is there, on its way, or of no kind that is fetched.
    Nothing,
    /// Download and decode the image attachment `key`, and hand the result
    /// back under the number `fetch`.
    Image { key: String, fetch: u64 },
    /// Download the video attachment `key` to a temporary file.
    Video { key: String },
    /// Capture the page at `url`, and hand the result back under the number
    /// `fetch`.
    Website { url: String, fetch: u64 },
}

/// A media fetch as plain values.
pub enum MediaFetchView {
    Nothing,
    Image(Seq<char>, u64),
    Video(Seq<char>),
    Website(Seq<char>, u64),
}

impl View for MediaFetch {
    type V = MediaFetchView;

    open spec fn view(&self) -> MediaFetchView {
        match *self {
            MediaFetch::Nothing => MediaFetchView::Nothing,
            MediaFetch::Image { key, fetch } => MediaFetchView::Image(key@, fetch),
            MediaFetch::Video { key } => MediaFetchView::Video(key@),
            MediaFetch::Website { url, fetch } => MediaFetchView::Website(url@, fetch),
        }
    }
}

/// What the caller does when a slide comes up.
#[derive(Debug)]
pub struct MediaDispatch {
    /// The teardown of the video session that ran, to be done first.
    pub video_steps: Vec<VideoStep>,
    /// The slide whose overlay text starts scrolling anew, if a slide is up.
    pub scroll_reset: Option<String>,
    /// The media to fetch.
    pub fetch: MediaFetch,
}

/// The report of the slide that is up, for the display's status document.
#[derive(Debug)]
pub struct StatusUpdate {
    /// The slide's name.
    pub slide_id: String,
    /// The slide's media key.
    pub slide_filename: String,
}

/// What the caller does when the slide changed.
#[derive(Debug)]
pub struct SlideDispatch {
    /// What to fetch and tear down.
    pub media: MediaDispatch,
    /// What to report, where there is something to report.
    pub status: Option<StatusUpdate>,
}

/// The configuration as plain values.
pub struct ConfigView {
    pub couchdb_url: Seq<char>,
    pub tv_uuid: Seq<char>,
    pub manager_url: Seq<char>,
}

/// The view of a configuration.
pub open spec fn config_view(config: AppConfig) -> ConfigView {
    ConfigView {
        couchdb_url: config.couchdb_url@,
        tv_uuid: config.tv_uuid@,
        manager_url: config.manager_url@,
    }
}

/// The client as plain values.
pub struct AppView {
    /// The configuration, where it could be loaded.
    pub config: Option<ConfigView>,
    /// What is on screen.
    pub state: AppStateView,
    /// The line shown while nothing else is.
    pub message: Seq<char>,
    /// The slides.
    pub slides: Seq<Slide>,
    /// The slide that is up.
    pub index: nat,
    /// When the slide came up, in nanoseconds of the caller's clock.
    pub started: Option<u64>,
    /// The media cache.
    pub cache: CacheState,
    /// The video pipeline.
    pub video: PipelineState,
}

impl AppView {
    /// What holds of every client: the index points at a slide, or at
    /// nothing while there is none.
    pub open spec fn wf(self) -> bool {
        self.index == 0 || self.index < self.slides.len()
    }

    /// The slide that is up. Meaningful while there are slides.
    pub open spec fn current(self) -> Slide {
        self.slides[self.index as int]
    }

    /// The client with another state and message.
    pub open spec fn with_state(self, state: AppStateView, message: Seq<char>) -> AppView {
        AppView { state, message, ..self }
    }

    /// The media that `fetch_current_slide_media` asks for: for an image or
    /// a website what the cache wants fetched, for a video the video, and
    /// nothing without slides or without a configuration.
    pub open spec fn media_fetch(self) -> MediaFetchView {
        if self.slides.len() == 0 || self.config is None {
            MediaFetchView::Nothing
        } else {
            let key = self.current().media_key();
            match self.current().kind() {
                SlideKind::Image => if self.cache.wants_fetch(key, SlideKind::Image) {
                    MediaFetchView::Image(key, self.cache.next_fetch)
                } else {
                    MediaFetchView::Nothing
                },
                SlideKind::Video => MediaFetchView::Video(key),
                SlideKind::Website => if self.cache.wants_fetch(key, SlideKind::Website) {
                    MediaFetchView::Website(key, self.cache.next_fetch)
                } else {
                    MediaFetchView::Nothing
                },
                SlideKind::Unsupported => MediaFetchView::Nothing,
            }
        }
    }

    /// The client after `fetch_current_slide_media`: the video session is
    /// stopped, the cache has taken the request, and for a video the
    /// message says that it is loading.
    pub open spec fn media_dispatched(self) -> AppView {
        if self.slides.len() == 0 {
            self
        } else {
            let key = self.current().media_key();
            AppView {
                video: self.video.stopped(),
                cache: if self.config is Some {
                    self.cache.requested(key, self.current().kind())
                } else {
                    self.cache
                },
                message: if self.config is Some && self.current().kind() == SlideKind::Video {
                    "Loading video: "@ + key
                } else {
                    self.message
                },
                ..self
            }
        }
    }

    /// The steps of `fetch_current_slide_media`: the teardown of what ran.
    pub open spec fn media_steps(self) -> Seq<VideoStep> {
        if self.slides.len() == 0 {
            Seq::<VideoStep>::empty()
        } else {
            self.video.stop_steps()
        }
    }

    /// The client after `trigger_document_fetch`: connecting where there
    /// is a configuration, in error where there is none.
    pub open spec fn fetch_triggered(self) -> AppView {
        if self.config is Some {
            self.with_state(AppStateView::Connecting, "Fetching slideshow document..."@)
        } else {
            self.with_state(
                AppStateView::Error("Cannot trigger document fetch: Configuration not loaded."@),
                "Cannot trigger document fetch: Configuration not loaded."@,
            )
        }
    }

    /// The client with `slides` as its list, the first of them up since `now`.
    pub open spec fn showing(self, slides: Seq<Slide>, now: u64) -> AppView {
        AppView {
            slides,
            index: 0,
            started: Some(now),
            state: AppStateView::Slideshow,
            message: "Slideshow started."@,
            ..self
        }
    }

    /// The client after a document with these slides was taken at `now`:
    /// with at least one slide the slideshow runs from the first, whose
    /// media is turned to; with none the default view is shown.
    pub open spec fn document_taken(self, slides: Option<Seq<Slide>>, now: u64) -> AppView {
        match slides {
            Some(list) => if list.len() > 0 {
                self.showing(list, now).media_dispatched()
            } else {
                self.with_state(AppStateView::DefaultView, "No slides in document."@)
            },
            None => self.with_state(AppStateView::DefaultView, "No slides array in document."@),
        }
    }

    /// Whether the result of a document fetch is awaited: only while
    /// connecting, and only with a configuration.
    pub open spec fn awaits_document(self) -> bool {
        self.state is Connecting && self.config is Some
    }

    /// The line that tells of a display without a document.
    pub open spec fn not_configured_text(self, what: Seq<char>) -> Seq<char> {
        "This TV (UUID: "@ + self.config.unwrap().tv_uuid + ") is not configured (doc ID "@ + what
            + " not found). Please add it to the slideshow manager at "@
            + self.config.unwrap().manager_url + "."@
    }

    /// The client after the fetch of the document failed: the default view
    /// where the document does not exist, the error state otherwise.
    pub open spec fn fetch_failed(self, failure: CouchDbFailure, description: Seq<char>) -> AppView {
        match failure {
            CouchDbFailure::NotFound(what) => self.with_state(
                AppStateView::DefaultView,
                self.not_configured_text(what),
            ),
            _ => self.with_state(
                AppStateView::Error("Error fetching document: "@ + description),
                description,
            ),
        }
    }

    /// The time that has passed at `now` since `since`; none if the clock
    /// reads less than it did.
    pub open spec fn elapsed(now: u64, since: u64) -> int {
        if now >= since {
            now - since
        } else {
            0
        }
    }

    /// Whether the slide that is up has been up for longer than its
    /// display time at `now`.
    pub open spec fn slide_is_over(self, now: u64) -> bool {
        &&& self.state is Slideshow
        &&& self.started is Some
        &&& self.slides.len() > 0
        &&& Self::elapsed(now, self.started.unwrap()) > self.current().display_nanos()
    }

    /// The client with the next slide up since `now`, the first after the
    /// last.
    pub open spec fn advanced(self, now: u64) -> AppView {
        AppView {
            index: ((self.index as int + 1) % (self.slides.len() as int)) as nat,
            started: Some(now),
            ..self
        }
    }

    /// The client after a tick at `now`. Outside the slideshow nothing
    /// changes. In it, an empty slide list falls back to the default view,
    /// whatever else holds; a missing start time is set; a slide whose time
    /// is over gives way to the next, whose media is turned to.
    pub open spec fn ticked(self, now: u64) -> AppView {
        if !(self.state is Slideshow) {
            self
        } else if self.slides.len() == 0 {
            self.with_state(AppStateView::DefaultView, "No slides available"@)
        } else if self.started is None {
            AppView { started: Some(now), ..self }
        } else if self.slide_is_over(now) {
            self.advanced(now).media_dispatched()
        } else {
            self
        }
    }

    /// The client after the change watcher's signal: the video stopped, the
    /// slides and all cached media dropped, and the document asked for
    /// again.
    pub open spec fn refetch_signalled(self) -> AppView {
        AppView {
            video: self.video.stopped(),
            slides: Seq::<Slide>::empty(),
            index: 0,
            cache: self.cache.caches_cleared().pending_cleared(),
            ..self
        }.with_state(
            AppStateView::Connecting,
            "Configuration changed. Refetching..."@,
        ).fetch_triggered()
    }

    /// The report of the slide that is up: its name and its media key.
    /// Nothing without slides or without a configuration.
    pub open spec fn status_update(self) -> Option<(Seq<char>, Seq<char>)> {
        if self.slides.len() == 0 || self.config is None {
            None
        } else {
            Some((self.current().name@, self.current().media_key()))
        }
    }
}

/// What a document fetch leads to. A document without slides, or without
/// a slide list, leads to the default view. A document with at least one
/// slide leads to the slideshow, with the first slide up and the timer
/// restarted at the time of the fetch. A document that does not exist
/// leads to the default view with a message that names the display. Any
/// other failure leads to the error state.
pub proof fn lemma_fetch_outcomes(
    app: AppView,
    slides: Seq<Slide>,
    now: u64,
    failure: CouchDbFailure,
    description: Seq<char>,
)
    requires
        app.config is Some,
    ensures
        app.document_taken(None, now).state == AppStateView::DefaultView,
        app.document_taken(Some(Seq::<Slide>::empty()), now).state == AppStateView::DefaultView,
        slides.len() >= 1 ==> ({
            let taken = app.document_taken(Some(slides), now);
            &&& taken.state == AppStateView::Slideshow
            &&& taken.slides == slides
            &&& taken.index == 0
            &&& taken.started == Some(now)
        }),
        failure is NotFound ==> app.fetch_failed(failure, description).state
            == AppStateView::DefaultView && contains_text(
            app.fetch_failed(failure, description).message,
            app.config.unwrap().tv_uuid,
        ),
        !(failure is NotFound) ==> app.fetch_failed(failure, description).state is Error,
{
    if failure is NotFound {
        let message = app.fetch_failed(failure, description).message;
        let uuid = app.config.unwrap().tv_uuid;
        let lead = "This TV (UUID: "@;
        assert(message.subrange(lead.len() as int, lead.len() as int + uuid.len() as int) =~= uuid);
        assert(occurs_at(message, uuid, lead.len() as int));
    }
}

/// The view of an optional status update.
pub open spec fn status_view(status: Option<StatusUpdate>) -> Option<(Seq<char>, Seq<char>)> {
    match status {
        Some(s) => Some((s.slide_id@, s.slide_filename@)),
        None => None,
    }
}

/// The view of an optional string.
pub open spec fn optional_text(value: Option<String>) -> Option<Seq<char>> {
    match value {
        Some(s) => Some(s@),
        None => None,
    }
}

/// The order to fetch the slideshow document.
#[derive(Clone, Copy, Debug, PartialEq, Eq, Structural)]
pub struct DocumentFetch {
    /// Whether unused attachments are swept right after the fetch.
    pub immediate_cleanup: bool,
}

/// What the caller does after a document fetch was taken.
pub struct SyncOutcome {
    /// What the first slide needs, where the slideshow started.
    pub dispatch: Option<SlideDispatch>,
    /// The sweep of unused attachments to run, where one was asked for.
    pub cleanup: Option<CleanupSweep>,
}

/// What the caller does after the change watcher's signal.
#[derive(Debug)]
pub struct RefetchOutcome {
    /// The teardown of the video session that ran.
    pub video_steps: Vec<VideoStep>,
    /// The fetch to start, where there is a configuration.
    pub fetch: Option<DocumentFetch>,
}

/// What the caller does at startup.
#[derive(Clone, Copy, Debug, PartialEq, Eq, Structural)]
pub struct Startup {
    /// Whether the change watcher and the periodic sweep are to be spawned.
    pub spawn_background: bool,
    /// The fetch to start, where there is a configuration.
    pub fetch: Option<DocumentFetch>,
}

/// Reads the flag that the change watcher raises and lowers it: true
/// exactly when it was raised.
pub fn take_refetch_flag(flag: &mut bool) -> (raised: bool)
    ensures
        raised == *old(flag),
        *final(flag) == false,
{
    let raised = *flag;
    *flag = false;
    raised
}

/// The client's state.
pub struct SlideshowApp {
    app_config: Option<AppConfig>,
    app_state: AppState,
    status_message: String,
    slides: Vec<Slide>,
    current_slide_index: usize,
    slide_start_time: Option<u64>,
    media_manager: MediaCacheManager,
    video: VideoPipeline,
}

impl View for SlideshowApp {
    type V = AppView;

    closed spec fn view(&self) -> AppView {
        AppView {
            config: match self.app_config {
                Some(config) => Some(config_view(config)),
                None => None,
            },
            state: self.app_state@,
            message: self.status_message@,
            slides: self.slides@,
            index: self.current_slide_index as nat,
            started: self.slide_start_time,
            cache: self.media_manager@,
            video: self.video@,
        }
    }
}

impl SlideshowApp {
    #[verifier::type_invariant]
    spec fn inv(self) -> bool {
        self.current_slide_index == 0 || self.current_slide_index < self.slides@.len()
    }

    /// What is on screen.
    pub fn app_state(&self) -> (state: &AppState)
        ensures
            state@ == self@.state,
    {
        &self.app_state
    }

    /// The line shown while nothing else is.
    pub fn status_message(&self) -> (message: &String)
        ensures
            message@ == self@.message,
    {
        &self.status_message
    }

    /// The configuration, where it could be loaded.
    pub fn app_config(&self) -> (config: Option<&AppConfig>)
        ensures
            match config {
                Some(c) => self@.config == Some(config_view(*c)),
                None => self@.config is None,
            },
    {
        self.app_config.as_ref()
    }

    /// The slides.
    pub fn slides(&self) -> (slides: &Vec<Slide>)
        ensures
            slides@ == self@.slides,
    {
        &self.slides
    }

    /// The index of the slide that is up.
    pub fn current_slide_index(&self) -> (index: usize)
        ensures
            index == self@.index,
            self@.wf(),
    {
        proof {
            use_type_invariant(self);
        }
        self.current_slide_index
    }

    /// The slide that is up, if there is one.
    pub fn current_slide(&self) -> (slide: Option<&Slide>)
        ensures
            match slide {
                Some(s) => self@.slides.len() > 0 && *s == self@.current(),
                None => self@.slides.len() == 0,
            },
    {
        proof {
            use_type_invariant(self);
        }
        if self.slides.len() == 0 {
            None
        } else {
            Some(&self.slides[self.current_slide_index])
        }
    }

    /// When the slide that is up came up.
    pub fn slide_start_time(&self) -> (started: Option<u64>)
        ensures
            started == self@.started,
    {
        self.slide_start_time
    }

    /// The media cache, to look things up in.
    pub fn media_manager(&self) -> (cache: &MediaCacheManager)
        ensures
            cache@ == self@.cache,
    {
        &self.media_manager
    }

    /// The video pipeline, to look things up in.
    pub fn video(&self) -> (video: &VideoPipeline)
        ensures
            video@ == self@.video,
    {
        &self.video
    }

    fn take_cache(&mut self) -> (cache: MediaCacheManager)
        ensures
            cache@ == old(self)@.cache,
            final(self)@ == (AppView { cache: CacheState::empty(), ..old(self)@ }),
    {
        proof {
            use_type_invariant(&*self);
        }
        let mut cache = MediaCacheManager::new();
        core::mem::swap(&mut self.media_manager, &mut cache);
        cache
    }

    fn take_video(&mut self) -> (video: VideoPipeline)
        ensures
            video@ == old(self)@.video,
            final(self)@ == (AppView {
                video: PipelineState { session: None, has_texture: false },
                ..old(self)@
            }),
    {
        proof {
            use_type_invariant(&*self);
        }
        let mut video = VideoPipeline::new();
        core::mem::swap(&mut self.video, &mut video);
        video
    }

    /// Ends the video session that runs, if one does, and returns the
    /// steps of its teardown in their order.
    pub fn cleanup_video_resources(&mut self) -> (steps: Vec<VideoStep>)
        ensures
            steps@ == old(self)@.video.stop_steps(),
            final(self)@ == (AppView { video: old(self)@.video.stopped(), ..old(self)@ }),
    {
        proof {
            use_type_invariant(&*self);
        }
        let mut video = self.take_video();
        let steps = video.stop();
        self.video = video;
        steps
    }

    /// Turns to the media of the slide that is up: the video session that
    /// ran is torn down; an image or a website is requested from the cache
    /// and fetched only if the cache has no entry for it; a video is
    /// fetched anew. Without slides nothing happens.
    pub fn fetch_current_slide_media(&mut self) -> (dispatch: MediaDispatch)
        ensures
            final(self)@ == old(self)@.media_dispatched(),
            dispatch.video_steps@ == old(self)@.media_steps(),
            dispatch.fetch@ == old(self)@.media_fetch(),
            optional_text(dispatch.scroll_reset) == if old(self)@.slides.len() == 0 {
                None
            } else {
                Some(old(self)@.current().name@)
            },
    {
        proof {
            use_type_invariant(&*self);
        }
        if self.slides.len() == 0 {
            return MediaDispatch {
                video_steps: Vec::new(),
                scroll_reset: None,
                fetch: MediaFetch::Nothing,
            };
        }
        let video_steps = self.cleanup_video_resources();
        let configured = self.app_config.is_some();
        let kind = self.slides[self.current_slide_index].get_kind();
        let key = self.slides[self.current_slide_index].get_media_key();
        let scroll_reset = Some(self.slides[self.current_slide_index].name.clone());
        let fetch = if !configured {
            MediaFetch::Nothing
        } else {
            match kind {
                SlideKind::Image => {
                    let mut cache = self.take_cache();
                    let started = cache.request(key.as_str(), SlideKind::Image);
                    self.media_manager = cache;
                    match started {
                        Some(fetch) => MediaFetch::Image { key, fetch },
                        None => MediaFetch::Nothing,
                    }
                },
                SlideKind::Video => {
                    self.status_message = join2("Loading video: ", key.as_str());
                    MediaFetch::Video { key }
                },
                SlideKind::Website => {
                    let mut cache = self.take_cache();
                    let started = cache.request(key.as_str(), SlideKind::Website);
                    self.media_manager = cache;
                    match started {
                        Some(fetch) => MediaFetch::Website { url: key, fetch },
                        None => MediaFetch::Nothing,
                    }
                },
                SlideKind::Unsupported => MediaFetch::Nothing,
            }
        };
        MediaDispatch { video_steps, scroll_reset, fetch }
    }

    /// The report of the slide that is up, for the status document: the
    /// slide's name and its media key. Nothing without slides or without a
    /// configuration.
    pub fn update_tv_status_for_current_slide(&self) -> (status: Option<StatusUpdate>)
        ensures
            status_view(status) == self@.status_update(),
    {
        proof {
            use_type_invariant(self);
        }
        if self.app_config.is_none() || self.slides.len() == 0 {
            return None;
        }
        let slide = &self.slides[self.current_slide_index];
        Some(StatusUpdate { slide_id: slide.name.clone(), slide_filename: slide.get_media_key() })
    }

    /// What the slide that is up needs: its media and its status report.
    fn dispatch_current_slide(&mut self) -> (dispatch: SlideDispatch)
        ensures
            final(self)@ == old(self)@.media_dispatched(),
            dispatch.media.video_steps@ == old(self)@.media_steps(),
            dispatch.media.fetch@ == old(self)@.media_fetch(),
            optional_text(dispatch.media.scroll_reset) == if old(self)@.slides.len() == 0 {
                None
            } else {
                Some(old(self)@.current().name@)
            },
            status_view(dispatch.status) == old(self)@.status_update(),
    {
        let media = self.fetch_current_slide_media();
        let status = self.update_tv_status_for_current_slide();
        SlideDispatch { media, status }
    }

    /// Asks for the slideshow document: with a configuration the client
    /// goes to `Connecting` and the fetch is to be started; without one it
    /// goes to `Error` and nothing is fetched.
    pub fn trigger_document_fetch(&mut self, immediate_cleanup: bool) -> (fetch: Option<
        DocumentFetch,
    >)
        ensures
            final(self)@ == old(self)@.fetch_triggered(),
            fetch == if old(self)@.config is Some {
                Some(DocumentFetch { immediate_cleanup })
            } else {
                None
            },
    {
        if self.app_config.is_some() {
            self.set_app_state(
                AppState::Connecting,
                String::from_str("Fetching slideshow document..."),
            );
            Some(DocumentFetch { immediate_cleanup })
        } else {
            self.set_app_state(
                AppState::Error(
                    String::from_str("Cannot trigger document fetch: Configuration not loaded."),
                ),
                String::from_str("Cannot trigger document fetch: Configuration not loaded."),
            );
            None
        }
    }

    /// Takes a document that was fetched at `now`. With at least one slide
    /// the slideshow starts at the first slide with the timer restarted,
    /// and the slide's media and status report are dispatched; with no
    /// slide, or no slide list, the default view is shown. Where
    /// `immediate_cleanup` is set and there is a configuration, the sweep of
    /// the document's unused attachments is handed back, to be run.
    pub fn start_slideshow_from_document(
        &mut self,
        doc: SlideshowDocument,
        immediate_cleanup: bool,
        now: u64,
    ) -> (outcome: SyncOutcome)
        ensures
            final(self)@ == old(self)@.document_taken(
                match doc.slides {
                    Some(list) => Some(list@),
                    None => None,
                },
                now,
            ),
            match outcome.cleanup {
                Some(sweep) => immediate_cleanup && old(self)@.config is Some && sweep@
                    == SweepState::begin(unused_of(doc), doc._rev@, true),
                None => !(immediate_cleanup && old(self)@.config is Some),
            },
            match outcome.dispatch {
                Some(dispatch) => doc.slide_seq().len() > 0 && ({
                    let shown = old(self)@.showing(doc.slide_seq(), now);
                    &&& dispatch.media.video_steps@ == shown.media_steps()
                    &&& dispatch.media.fetch@ == shown.media_fetch()
                    &&& optional_text(dispatch.media.scroll_reset) == Some(shown.current().name@)
                    &&& status_view(dispatch.status) == shown.status_update()
                }),
                None => doc.slide_seq().len() == 0,
            },
    {
        proof {
            use_type_invariant(&*self);
        }
        let cleanup = if immediate_cleanup && self.app_config.is_some() {
            Some(CleanupSweep::begin(&doc, true))
        } else {
            None
        };
        let dispatch = match doc.slides {
            Some(list) => {
                if list.len() > 0 {
                    self.current_slide_index = 0;
                    self.slides = list;
                    self.app_state = AppState::Slideshow;
                    self.status_message = String::from_str("Slideshow started.");
                    self.slide_start_time = Some(now);
                    Some(self.dispatch_current_slide())
                } else {
                    self.set_app_state(
                        AppState::DefaultView,
                        String::from_str("No slides in document."),
                    );
                    None
                }
            },
            None => {
                self.set_app_state(
                    AppState::DefaultView,
                    String::from_str("No slides array in document."),
                );
                None
            },
        };
        SyncOutcome { dispatch, cleanup }
    }

    /// True exactly while the result of a document fetch is awaited:
    /// while connecting, with a configuration.
    pub fn awaits_document(&self) -> (r: bool)
        ensures
            r == self@.awaits_document(),
    {
        self.app_state.is_connecting() && self.app_config.is_some()
    }

    /// Takes the failure of the document fetch. A document that does not
    /// exist leads to the default view, with a line that names the display,
    /// the missing document and the manager; any other failure leads to the
    /// error state. Ignored unless a result is awaited.
    pub fn on_document_fetch_failed(&mut self, error: &CouchDbError)
        ensures
            final(self)@ == if old(self)@.awaits_document() {
                old(self)@.fetch_failed(error@, error.message_text())
            } else {
                old(self)@
            },
    {
        if !self.awaits_document() {
            return ;
        }
        match error {
            CouchDbError::NotFound(what) => {
                let text = match &self.app_config {
                    Some(config) => {
                        let mut text = join2("This TV (UUID: ", config.tv_uuid.as_str());
                        text.append(") is not configured (doc ID ");
                        text.append(what.as_str());
                        text.append(" not found). Please add it to the slideshow manager at ");
                        text.append(config.manager_url.as_str());
                        text.append(".");
                        text
                    },
                    None => String::new(),
                };
                self.set_app_state(AppState::DefaultView, text);
            },
            _ => {
                let description = error.message();
                let shown = join2("Error fetching document: ", description.as_str());
                self.set_app_state(AppState::Error(shown), description);
            },
        }
    }

    /// Takes the result of the document fetch at `now`: a document starts
    /// the slideshow or shows the default view, a failure shows the default
    /// view or the error state. Ignored, with nothing to do, unless a
    /// result is awaited.
    pub fn on_document_fetched(
        &mut self,
        result: Result<SlideshowDocument, CouchDbError>,
        immediate_cleanup: bool,
        now: u64,
    ) -> (outcome: SyncOutcome)
        ensures
            !old(self)@.awaits_document() ==> final(self)@ == old(self)@ && outcome.dispatch is None
                && outcome.cleanup is None,
            old(self)@.awaits_document() ==> match result {
                Ok(doc) => {
                    &&& final(self)@ == old(self)@.document_taken(
                        match doc.slides {
                            Some(list) => Some(list@),
                            None => None,
                        },
                        now,
                    )
                    &&& match outcome.cleanup {
                        Some(sweep) => immediate_cleanup && sweep@ == SweepState::begin(
                            unused_of(doc),
                            doc._rev@,
                            true,
                        ),
                        None => !immediate_cleanup,
                    }
                    &&& match outcome.dispatch {
                        Some(dispatch) => doc.slide_seq().len() > 0 && ({
                            let shown = old(self)@.showing(doc.slide_seq(), now);
                            &&& dispatch.media.video_steps@ == shown.media_steps()
                            &&& dispatch.media.fetch@ == shown.media_fetch()
                            &&& optional_text(dispatch.media.scroll_reset) == Some(
                                shown.current().name@,
                            )
                            &&& status_view(dispatch.status) == shown.status_update()
                        }),
                        None => doc.slide_seq().len() == 0,
                    }
                },
                Err(error) => {
                    &&& final(self)@ == old(self)@.fetch_failed(error@, error.message_text())
                    &&& outcome.dispatch is None
                    &&& outcome.cleanup is None
                },
            },
    {
        if !self.awaits_document() {
            return SyncOutcome { dispatch: None, cleanup: None };
        }
        match result {
            Ok(doc) => self.start_slideshow_from_document(doc, immediate_cleanup, now),
            Err(error) => {
                self.on_document_fetch_failed(&error);
                SyncOutcome { dispatch: None, cleanup: None }
            },
        }
    }

    /// Starts the client from the result of loading the configuration.
    /// With a configuration it connects: the background tasks are to be
    /// spawned and the document fetched, with a sweep right after. Without
    /// one it is in the error state, with the failure as its message, and
    /// nothing is to be done.
    pub fn new(config: Result<AppConfig, ConfigError>) -> (started: (SlideshowApp, Startup))
        ensures
            started.0@.slides == Seq::<Slide>::empty(),
            started.0@.index == 0,
            started.0@.started is None,
            started.0@.cache == CacheState::empty(),
            started.0@.video == (PipelineState { session: None, has_texture: false }),
            match config {
                Ok(c) => {
                    &&& started.0@.config == Some(config_view(c))
                    &&& started.0@.state == AppStateView::Connecting
                    &&& started.0@.message == "Fetching slideshow document..."@
                    &&& started.1 == (Startup {
                        spawn_background: true,
                        fetch: Some(DocumentFetch { immediate_cleanup: true }),
                    })
                },
                Err(e) => {
                    &&& started.0@.config is None
                    &&& started.0@.state == AppStateView::Error(
                        "Failed to load configuration: "@ + e.message_text(),
                    )
                    &&& started.0@.message == "Failed to load configuration: "@ + e.message_text()
                    &&& started.1 == (Startup { spawn_background: false, fetch: None })
                },
            },
    {
        match config {
            Ok(c) => {
                let mut app = SlideshowApp {
                    app_config: Some(c),
                    app_state: AppState::Connecting,
                    status_message: String::from_str(
                        "Configuration loaded. Connecting to CouchDB...",
                    ),
                    slides: Vec::new(),
                    current_slide_index: 0,
                    slide_start_time: None,
                    media_manager: MediaCacheManager::new(),
                    video: VideoPipeline::new(),
                };
                let fetch = app.trigger_document_fetch(true);
                (app, Startup { spawn_background: true, fetch })
            },
            Err(e) => {
                let description = e.message();
                let text = join2("Failed to load configuration: ", description.as_str());
                let app = SlideshowApp {
                    app_config: None,
                    app_state: AppState::Error(text.clone()),
                    status_message: text,
                    slides: Vec::new(),
                    current_slide_index: 0,
                    slide_start_time: None,
                    media_manager: MediaCacheManager::new(),
                    video: VideoPipeline::new(),
                };
                (app, Startup { spawn_background: false, fetch: None })
            },
        }
    }

    /// Takes the change watcher's signal: the video session is torn down,
    /// the slides and all cached and pending media are dropped, and the
    /// document is asked for again, with a sweep right after.
    pub fn on_refetch_signal(&mut self) -> (outcome: RefetchOutcome)
        ensures
            final(self)@ == old(self)@.refetch_signalled(),
            outcome.video_steps@ == old(self)@.video.stop_steps(),
            outcome.fetch == if old(self)@.config is Some {
                Some(DocumentFetch { immediate_cleanup: true })
            } else {
                None
            },
    {
        proof {
            use_type_invariant(&*self);
        }
        let video_steps = self.cleanup_video_resources();
        self.set_app_state(
            AppState::Connecting,
            String::from_str("Configuration changed. Refetching..."),
        );
        self.current_slide_index = 0;
        self.slides = Vec::new();
        let mut cache = self.take_cache();
        cache.invalidate_all();
        self.media_manager = cache;
        let fetch = self.trigger_document_fetch(true);
        RefetchOutcome { video_steps, fetch }
    }

    /// Records how fetch number `fetch` of `key` ended. A result whose
    /// placeholder no longer stands is dropped.
    pub fn resolve_media(&mut self, key: &str, fetch: u64, outcome: Result<Raster, MediaError>)
        ensures
            final(self)@ == (AppView {
                cache: old(self)@.cache.resolved(
                    key@,
                    fetch,
                    match outcome {
                        Ok(picture) => CacheEntry::Ready(picture),
                        Err(error) => CacheEntry::Failed(error),
                    },
                ),
                ..old(self)@
            }),
    {
        let mut cache = self.take_cache();
        cache.resolve(key, fetch, outcome);
        proof {
            use_type_invariant(&*self);
        }
        self.media_manager = cache;
    }

    /// Drains the fetches that have ended into the cache's buckets.
    pub fn poll_media(&mut self)
        ensures
            final(self)@ == (AppView { cache: old(self)@.cache.polled(), ..old(self)@ }),
    {
        let mut cache = self.take_cache();
        cache.poll();
        proof {
            use_type_invariant(&*self);
        }
        self.media_manager = cache;
    }

    /// The tick of the render loop at `now`. In the slideshow, an empty
    /// slide list makes the client fall back to the default view at once,
    /// with or without a start time. Otherwise the slide that has been up
    /// for longer than its display time gives way to the next one, the
    /// first after the last; the timer restarts and the new slide's media
    /// and status report are dispatched. Outside the slideshow nothing
    /// changes.
    pub fn tick(&mut self, now: u64) -> (dispatch: Option<SlideDispatch>)
        ensures
            final(self)@ == old(self)@.ticked(now),
            match dispatch {
                Some(d) => old(self)@.slide_is_over(now) && ({
                    let moved = old(self)@.advanced(now);
                    &&& d.media.video_steps@ == moved.media_steps()
                    &&& d.media.fetch@ == moved.media_fetch()
                    &&& optional_text(d.media.scroll_reset) == Some(moved.current().name@)
                    &&& status_view(d.status) == moved.status_update()
                }),
                None => !old(self)@.slide_is_over(now),
            },
    {
        proof {
            use_type_invariant(&*self);
        }
        if !self.app_state.is_slideshow() {
            return None;
        }
        let count = self.slides.len();
        if count == 0 {
            self.set_app_state(AppState::DefaultView, String::from_str("No slides available"));
            return None;
        }
        let since = match self.slide_start_time {
            Some(since) => since,
            None => {
                self.slide_start_time = Some(now);
                return None;
            },
        };
        let elapsed = if now >= since {
            now - since
        } else {
            0
        };
        if elapsed > self.slides[self.current_slide_index].get_display_nanos() {
            let next = if self.current_slide_index + 1 < count {
                self.current_slide_index + 1
            } else {
                0
            };
            assert(next == (self.current_slide_index + 1) % (count as int)) by {
                if self.current_slide_index + 1 < count {
                    vstd::arithmetic::div_mod::lemma_small_mod(
                        (self.current_slide_index + 1) as nat,
                        count as nat,
                    );
                } else {
                    vstd::arithmetic::div_mod::lemma_mod_self_0(count as int);
                }
            }
            self.current_slide_index = next;
            self.slide_start_time = Some(now);
            Some(self.dispatch_current_slide())
        } else {
            None
        }
    }

    /// Takes a video file that is ready to play: a session for `key`
    /// starts, after the teardown of whatever ran, and the message says
    /// what is playing.
    pub fn on_video_ready(&mut self, key: String, width: u32, height: u32) -> (steps: Vec<
        VideoStep,
    >)
        ensures
            steps@ == old(self)@.video.stop_steps().push(VideoStep::SpawnWorker),
            final(self)@ == (AppView {
                video: PipelineState {
                    session: Some(SessionView { key: key@, width, height }),
                    has_texture: false,
                },
                message: "Playing video: "@ + key@,
                ..old(self)@
            }),
    {
        proof {
            use_type_invariant(&*self);
        }
        let message = join2("Playing video: ", key.as_str());
        let mut video = self.take_video();
        let steps = video.start(key, width, height);
        self.video = video;
        self.status_message = message;
        steps
    }

    /// Takes the failure to set up playback of the video `key`: the
    /// message says so and the state stays as it is, since a media failure
    /// concerns its slide alone.
    pub fn on_video_setup_failed(&mut self, key: &str, error: &MediaError)
        ensures
            final(self)@ == (AppView {
                message: "Error setting up video playback for "@ + key@ + ": "@
                    + error.message_text(),
                ..old(self)@
            }),
    {
        proof {
            use_type_invariant(&*self);
        }
        let description = error.message();
        let mut message = join2("Error setting up video playback for ", key);
        message.append(": ");
        message.append(description.as_str());
        self.status_message = message;
    }

    /// Records that a frame of the running session is on screen.
    pub fn on_video_frame(&mut self)
        ensures
            final(self)@ == (AppView {
                video: PipelineState {
                    has_texture: old(self)@.video.has_texture || old(self)@.video.session is Some,
                    ..old(self)@.video
                },
                ..old(self)@
            }),
    {
        let mut video = self.take_video();
        video.frame_shown();
        proof {
            use_type_invariant(&*self);
        }
        self.video = video;
    }

    /// Whether the video session that runs belongs to another slide than
    /// the video slide that is up.
    pub open spec fn video_is_stale(view: AppView) -> bool {
        view.slides.len() > 0 && view.current().kind() == SlideKind::Video && view.video.stale_for(
            view.current().media_key(),
        )
    }

    /// Restarts the pipeline where it is stale: when a video slide is up
    /// and the session that runs belongs to another key, the slide's media
    /// is turned to anew. Otherwise nothing happens.
    pub fn refresh_stale_video(&mut self) -> (dispatch: Option<MediaDispatch>)
        ensures
            final(self)@ == if Self::video_is_stale(old(self)@) {
                old(self)@.media_dispatched()
            } else {
                old(self)@
            },
            match dispatch {
                Some(d) => Self::video_is_stale(old(self)@) && d.video_steps@
                    == old(self)@.media_steps() && d.fetch@ == old(self)@.media_fetch()
                    && optional_text(d.scroll_reset) == Some(old(self)@.current().name@),
                None => !Self::video_is_stale(old(self)@),
            },
    {
        proof {
            use_type_invariant(&*self);
        }
        if self.slides.len() == 0 {
            return None;
        }
        let stale = match self.slides[self.current_slide_index].get_kind() {
            SlideKind::Video => {
                let key = self.slides[self.current_slide_index].get_media_key();
                self.video.is_stale(key.as_str())
            },
            _ => false,
        };
        if stale {
            Some(self.fetch_current_slide_media())
        } else {
            None
        }
    }

    /// Sets what is on screen and the line that goes with it.
    pub fn set_app_state(&mut self, new_state: AppState, message: String)
        ensures
            final(self)@ == old(self)@.with_state(new_state@, message@),
    {
        proof {
            use_type_invariant(&*self);
        }
        self.app_state = new_state;
        self.status_message = message;
    }
}

} // verus!
