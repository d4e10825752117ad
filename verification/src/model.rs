//! The slideshow document as the display client consumes it.

use crate::text::{lowercase_text, same_text, to_lowercase};
use vstd::prelude::*;

verus! {

/// How long a slide stays up when it names no duration: ten seconds.
pub const DEFAULT_SLIDE_DURATION_NANOS: u64 = 10_000_000_000;

/// What a slide shows, decided once from its type label.
#[derive(Clone, Copy, Debug, PartialEq, Eq, Structural)]
pub enum SlideKind {
    /// A stored raster attachment.
    Image,
    /// A stored video attachment.
    Video,
    /// A web page, captured as a screenshot.
    Website,
    /// A label that names none of the above.
    Unsupported,
}

/// The kind that a lower-case type label names.
pub open spec fn kind_of_label(lowered: Seq<char>) -> SlideKind {
    if lowered == "image"@ || lowered == "picture"@ {
        SlideKind::Image
    } else if lowered == "video"@ {
        SlideKind::Video
    } else if lowered == "website"@ {
        SlideKind::Website
    } else {
        SlideKind::Unsupported
    }
}

/// The kind that a type label names, whatever its case.
pub open spec fn kind_of_type(type_: Seq<char>) -> SlideKind {
    kind_of_label(lowercase_text(type_))
}

impl SlideKind {
    /// Decides the kind from a label that is already in lower case:
    /// `image` and `picture` are images, `video` and `website` name
    /// themselves, anything else is unsupported.
    pub fn from_lowercase_label(lowered: &str) -> (kind: SlideKind)
        ensures
            kind == kind_of_label(lowered@),
    {
        if same_text(lowered, "image") || same_text(lowered, "picture") {
            SlideKind::Image
        } else if same_text(lowered, "video") {
            SlideKind::Video
        } else if same_text(lowered, "website") {
            SlideKind::Website
        } else {
            SlideKind::Unsupported
        }
    }

    /// Decides the kind from a type label as authored, ignoring case.
    pub fn from_type(type_: &str) -> (kind: SlideKind)
        ensures
            kind == kind_of_type(type_@),
    {
        let lowered = to_lowercase(type_);
        SlideKind::from_lowercase_label(lowered.as_str())
    }

    /// Whether slides of this kind show a stored attachment.
    pub open spec fn uses_attachment(self) -> bool {
        self == SlideKind::Image || self == SlideKind::Video
    }

    /// True for images and videos, which are stored as attachments of the
    /// document; false for websites and unsupported slides.
    pub fn references_attachment(&self) -> (r: bool)
        ensures
            r == self.uses_attachment(),
    {
        match self {
            SlideKind::Image => true,
            SlideKind::Video => true,
            _ => false,
        }
    }
}

/// A slide's type: the label as authored and the kind that it names. The
/// two are set together and cannot be changed apart.
#[derive(Debug)]
pub struct SlideType {
    label: String,
    kind: SlideKind,
}

impl Clone for SlideType {
    fn clone(&self) -> (copy: SlideType)
        ensures
            copy.label_view() == self.label_view(),
            copy.kind_view() == self.kind_view(),
    {
        proof {
            use_type_invariant(self);
        }
        SlideType { label: self.label.clone(), kind: self.kind }
    }
}

impl SlideType {
    #[verifier::type_invariant]
    spec fn inv(self) -> bool {
        self.kind == kind_of_type(self.label@)
    }

    /// The label as authored.
    pub closed spec fn label_view(self) -> Seq<char> {
        self.label@
    }

    /// The kind that the label names.
    pub closed spec fn kind_view(self) -> SlideKind {
        self.kind
    }

    /// The type that a label names; the kind is decided here, once.
    pub fn new(label: String) -> (slide_type: SlideType)
        ensures
            slide_type.label_view() == label@,
            slide_type.kind_view() == kind_of_type(label@),
    {
        let kind = SlideKind::from_type(label.as_str());
        SlideType { label, kind }
    }

    /// The label as authored.
    pub fn label(&self) -> (label: &String)
        ensures
            label@ == self.label_view(),
    {
        &self.label
    }

    /// The kind, which is the one that the label names.
    pub fn kind(&self) -> (kind: SlideKind)
        ensures
            kind == self.kind_view(),
            kind == kind_of_type(self.label_view()),
    {
        proof {
            use_type_invariant(self);
        }
        self.kind
    }
}

/// One slide of the slideshow.
#[derive(Clone, Debug)]
pub struct Slide {
    /// The slide's logical name; the attachment name when `filename` is unset.
    pub name: String,
    /// The slide's type: its label and the kind of media that it shows.
    pub type_: SlideType,
    /// How long the slide is displayed, in nanoseconds.
    pub duration_nanos: Option<u64>,
    /// Overlay text.
    pub text: Option<String>,
    /// Overlay text colour, as a hex string.
    pub text_color: Option<String>,
    /// Overlay text size: `small`, `medium` or `large`.
    pub text_size: Option<String>,
    /// Overlay position, such as `bottom-center`.
    pub text_position: Option<String>,
    /// Overlay background colour, as a hex string.
    pub text_background_color: Option<String>,
    /// Transition time, in nanoseconds.
    pub transition_time_nanos: Option<u64>,
    /// Whether overlay text that is too wide scrolls.
    pub scroll_text: Option<bool>,
    /// The address of a website slide.
    pub url: Option<String>,
    /// The attachment name, where it differs from `name`.
    pub filename: Option<String>,
}

impl Slide {
    /// A slide with the given name and type label and no other attribute.
    pub fn new(name: String, type_: String) -> (slide: Slide)
        ensures
            slide.name == name,
            slide.type_.label_view() == type_@,
            slide.kind() == kind_of_type(type_@),
            slide.duration_nanos is None,
            slide.text is None,
            slide.text_color is None,
            slide.text_size is None,
            slide.text_position is None,
            slide.text_background_color is None,
            slide.transition_time_nanos is None,
            slide.scroll_text is None,
            slide.url is None,
            slide.filename is None,
    {
        Slide {
            name,
            type_: SlideType::new(type_),
            duration_nanos: None,
            text: None,
            text_color: None,
            text_size: None,
            text_position: None,
            text_background_color: None,
            transition_time_nanos: None,
            scroll_text: None,
            url: None,
            filename: None,
        }
    }

    /// What the slide shows.
    pub open spec fn kind(self) -> SlideKind {
        self.type_.kind_view()
    }

    /// What the slide shows.
    pub fn get_kind(&self) -> (kind: SlideKind)
        ensures
            kind == self.kind(),
    {
        self.type_.kind()
    }

    /// The name under which the slide's attachment is stored: `filename`
    /// when it is set and not empty, else `name`.
    pub open spec fn attachment_key(self) -> Seq<char> {
        match self.filename {
            Some(f) => if f@.len() > 0 {
                f@
            } else {
                self.name@
            },
            None => self.name@,
        }
    }

    /// The key under which the slide's media is fetched and cached: the
    /// address for a website (empty when unset), the attachment name otherwise.
    pub open spec fn media_key(self) -> Seq<char> {
        if self.kind() == SlideKind::Website {
            match self.url {
                Some(u) => u@,
                None => Seq::<char>::empty(),
            }
        } else {
            self.attachment_key()
        }
    }

    /// The display time: the slide's own, or ten seconds.
    pub open spec fn display_nanos(self) -> u64 {
        match self.duration_nanos {
            Some(d) => d,
            None => DEFAULT_SLIDE_DURATION_NANOS,
        }
    }

    /// The key under which the slide's media is fetched and cached.
    pub fn get_media_key(&self) -> (key: String)
        ensures
            key@ == self.media_key(),
    {
        match self.get_kind() {
            SlideKind::Website => match &self.url {
                Some(u) => u.clone(),
                None => String::new(),
            },
            _ => get_attachment_key_from_slide(self),
        }
    }

    /// How long the slide is displayed, in nanoseconds.
    pub fn get_display_nanos(&self) -> (d: u64)
        ensures
            d == self.display_nanos(),
    {
        match self.duration_nanos {
            Some(d) => d,
            None => DEFAULT_SLIDE_DURATION_NANOS,
        }
    }
}

/// The name under which a slide's attachment is stored.
pub fn get_attachment_key_from_slide(slide: &Slide) -> (key: String)
    ensures
        key@ == slide.attachment_key(),
{
    match &slide.filename {
        Some(f) => if f.as_str().unicode_len() > 0 {
            f.clone()
        } else {
            slide.name.clone()
        },
        None => slide.name.clone(),
    }
}

/// Metadata of one stored attachment. Only its presence under a name matters.
#[derive(Clone, Debug)]
pub struct CouchDbAttachmentInfo {}

/// The slideshow document of one display.
#[derive(Clone, Debug)]
pub struct SlideshowDocument {
    /// The document's id: the display's identifier.
    pub _id: String,
    /// The revision at the time of the fetch.
    pub _rev: String,
    /// The slides, in display order.
    pub slides: Option<Vec<Slide>>,
    /// The attachments stored with the document, by name.
    pub _attachments: Option<Vec<(String, CouchDbAttachmentInfo)>>,
}

impl SlideshowDocument {
    /// The slides, none where the list is absent.
    pub open spec fn slide_seq(self) -> Seq<Slide> {
        match self.slides {
            Some(v) => v@,
            None => Seq::<Slide>::empty(),
        }
    }

    /// The names of the stored attachments, in the document's order.
    pub open spec fn attachment_names(self) -> Seq<Seq<char>> {
        match self._attachments {
            Some(v) => Seq::new(v@.len(), |i: int| v@[i].0@),
            None => Seq::<Seq<char>>::empty(),
        }
    }
}

/// What the client is showing.
#[derive(Clone, Debug, PartialEq)]
pub enum AppState {
    /// Starting up, or fetching the slideshow document.
    Connecting,
    /// Playing the slide list.
    Slideshow,
    /// The document is missing or has no slides.
    DefaultView,
    /// A failure that ends playback until the next resynchronization.
    Error(String),
}

/// The client's state as plain values.
pub enum AppStateView {
    Connecting,
    Slideshow,
    DefaultView,
    Error(Seq<char>),
}

impl View for AppState {
    type V = AppStateView;

    open spec fn view(&self) -> AppStateView {
        match *self {
            AppState::Connecting => AppStateView::Connecting,
            AppState::Slideshow => AppStateView::Slideshow,
            AppState::DefaultView => AppStateView::DefaultView,
            AppState::Error(message) => AppStateView::Error(message@),
        }
    }
}

impl AppState {
    /// True exactly for the `Connecting` state.
    pub fn is_connecting(&self) -> (r: bool)
        ensures
            r == (*self is Connecting),
    {
        match self {
            AppState::Connecting => true,
            _ => false,
        }
    }

    /// True exactly for the `Slideshow` state.
    pub fn is_slideshow(&self) -> (r: bool)
        ensures
            r == (*self is Slideshow),
    {
        match self {
            AppState::Slideshow => true,
            _ => false,
        }
    }

    /// True exactly for the `DefaultView` state.
    pub fn is_default_view(&self) -> (r: bool)
        ensures
            r == (*self is DefaultView),
    {
        match self {
            AppState::DefaultView => true,
            _ => false,
        }
    }

    /// A copy of the state.
    pub fn duplicate(&self) -> (copy: AppState)
        ensures
            copy@ == self@,
    {
        match self {
            AppState::Connecting => AppState::Connecting,
            AppState::Slideshow => AppState::Slideshow,
            AppState::DefaultView => AppState::DefaultView,
            AppState::Error(message) => AppState::Error(message.clone()),
        }
    }

    /// True exactly for the `Error` state.
    pub fn is_error(&self) -> (r: bool)
        ensures
            r == (*self is Error),
    {
        match self {
            AppState::Error(_) => true,
            _ => false,
        }
    }
}

} // verus!
