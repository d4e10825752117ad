//! The failures that the client distinguishes, each carrying the text of what
//! went wrong.

use crate::text::{decimal, decimal_text, join2};
use vstd::prelude::*;
use vstd::std_specs::convert::FromSpecImpl;

verus! {

/// Failures while loading the configuration.
#[must_use]
#[derive(Debug)]
pub enum ConfigError {
    /// The configuration file could not be read.
    Io(String),
    /// The configuration file is not well formed.
    Parse(String),
    /// A required key is absent; the field is the key's name.
    MissingKey(String),
}

/// A configuration failure as plain values: the variant and the text it
/// carries.
pub enum ConfigFailure {
    Io(Seq<char>),
    Parse(Seq<char>),
    MissingKey(Seq<char>),
}

impl View for ConfigError {
    type V = ConfigFailure;

    open spec fn view(&self) -> ConfigFailure {
        match *self {
            ConfigError::Io(e) => ConfigFailure::Io(e@),
            ConfigError::Parse(e) => ConfigFailure::Parse(e@),
            ConfigError::MissingKey(key) => ConfigFailure::MissingKey(key@),
        }
    }
}

impl ConfigError {
    /// The text that `message` returns.
    pub open spec fn message_text(self) -> Seq<char> {
        match self {
            ConfigError::Io(e) => "Configuration I/O error: "@ + e@,
            ConfigError::Parse(e) => "Configuration parse error: "@ + e@,
            ConfigError::MissingKey(key) => "Missing configuration key: '"@ + key@ + "'"@,
        }
    }

    /// A one-line description of the failure.
    pub fn message(&self) -> (out: String)
        ensures
            out@ == self.message_text(),
    {
        match self {
            ConfigError::Io(e) => join2("Configuration I/O error: ", e.as_str()),
            ConfigError::Parse(e) => join2("Configuration parse error: ", e.as_str()),
            ConfigError::MissingKey(key) => {
                let mut out = join2("Missing configuration key: '", key.as_str());
                out.append("'");
                out
            },
        }
    }
}

/// Failures while talking to the document store.
#[must_use]
#[derive(Debug)]
pub enum CouchDbError {
    /// The request could not be sent or its answer could not be read.
    Reqwest(String),
    /// A body was not the JSON that was expected.
    SerdeJson(String),
    /// An address could not be parsed.
    UrlParse(String),
    /// The document or attachment does not exist.
    NotFound(String),
    /// The store answered with a failure status other than "not found".
    HttpError { status: u16, message: String },
    /// Any other failure.
    Generic(String),
}

/// A store failure as plain values: the variant and the text it carries.
pub enum CouchDbFailure {
    Reqwest(Seq<char>),
    SerdeJson(Seq<char>),
    UrlParse(Seq<char>),
    NotFound(Seq<char>),
    HttpError { status: u16, message: Seq<char> },
    Generic(Seq<char>),
}

impl View for CouchDbError {
    type V = CouchDbFailure;

    open spec fn view(&self) -> CouchDbFailure {
        match *self {
            CouchDbError::Reqwest(e) => CouchDbFailure::Reqwest(e@),
            CouchDbError::SerdeJson(e) => CouchDbFailure::SerdeJson(e@),
            CouchDbError::UrlParse(e) => CouchDbFailure::UrlParse(e@),
            CouchDbError::NotFound(id) => CouchDbFailure::NotFound(id@),
            CouchDbError::HttpError { status, message } => CouchDbFailure::HttpError {
                status,
                message: message@,
            },
            CouchDbError::Generic(s) => CouchDbFailure::Generic(s@),
        }
    }
}

impl CouchDbError {
    /// The text that `message` returns.
    pub open spec fn message_text(self) -> Seq<char> {
        match self {
            CouchDbError::Reqwest(e) => "CouchDB request error: "@ + e@,
            CouchDbError::SerdeJson(e) => "CouchDB JSON (de)serialization error: "@ + e@,
            CouchDbError::UrlParse(e) => "CouchDB URL parse error: "@ + e@,
            CouchDbError::NotFound(id) => "CouchDB resource not found: "@ + id@,
            CouchDbError::HttpError { status, message } => "CouchDB HTTP error "@ + decimal_text(
                status as nat,
            ) + ": "@ + message@,
            CouchDbError::Generic(s) => "CouchDB error: "@ + s@,
        }
    }

    /// A one-line description of the failure.
    pub fn message(&self) -> (out: String)
        ensures
            out@ == self.message_text(),
    {
        match self {
            CouchDbError::Reqwest(e) => join2("CouchDB request error: ", e.as_str()),
            CouchDbError::SerdeJson(e) => join2(
                "CouchDB JSON (de)serialization error: ",
                e.as_str(),
            ),
            CouchDbError::UrlParse(e) => join2("CouchDB URL parse error: ", e.as_str()),
            CouchDbError::NotFound(id) => join2("CouchDB resource not found: ", id.as_str()),
            CouchDbError::HttpError { status, message } => {
                let code = decimal(*status as u64);
                let mut out = join2("CouchDB HTTP error ", code.as_str());
                out.append(": ");
                out.append(message.as_str());
                out
            },
            CouchDbError::Generic(s) => join2("CouchDB error: ", s.as_str()),
        }
    }

    /// True exactly for `NotFound`.
    pub fn is_not_found(&self) -> (r: bool)
        ensures
            r == (*self is NotFound),
    {
        match self {
            CouchDbError::NotFound(_) => true,
            _ => false,
        }
    }
}

/// Failures while fetching, decoding or capturing one piece of media.
#[must_use]
#[derive(Debug)]
pub enum MediaError {
    /// A temporary file could not be written or read.
    Io(String),
    /// The bytes are not an image that can be decoded.
    Image(String),
    /// The video container or its stream could not be decoded.
    Ffmpeg(String),
    /// The page capture failed.
    HeadlessChrome(String),
    /// A temporary file could not be kept.
    TempFilePersist(String),
    /// The download failed.
    Download(String),
    /// A frame could not be handed to the consumer.
    ChannelSend(String),
    /// Any other failure.
    Generic(String),
    /// The media is of a format that is not handled.
    UnsupportedFormat(String),
}

/// A media failure as plain values: the variant and the text it carries.
pub enum MediaFailure {
    Io(Seq<char>),
    Image(Seq<char>),
    Ffmpeg(Seq<char>),
    HeadlessChrome(Seq<char>),
    TempFilePersist(Seq<char>),
    Download(Seq<char>),
    ChannelSend(Seq<char>),
    Generic(Seq<char>),
    UnsupportedFormat(Seq<char>),
}

impl View for MediaError {
    type V = MediaFailure;

    open spec fn view(&self) -> MediaFailure {
        match *self {
            MediaError::Io(e) => MediaFailure::Io(e@),
            MediaError::Image(e) => MediaFailure::Image(e@),
            MediaError::Ffmpeg(e) => MediaFailure::Ffmpeg(e@),
            MediaError::HeadlessChrome(s) => MediaFailure::HeadlessChrome(s@),
            MediaError::TempFilePersist(e) => MediaFailure::TempFilePersist(e@),
            MediaError::Download(e) => MediaFailure::Download(e@),
            MediaError::ChannelSend(s) => MediaFailure::ChannelSend(s@),
            MediaError::Generic(s) => MediaFailure::Generic(s@),
            MediaError::UnsupportedFormat(s) => MediaFailure::UnsupportedFormat(s@),
        }
    }
}

impl MediaError {
    /// The text that `message` returns.
    pub open spec fn message_text(self) -> Seq<char> {
        match self {
            MediaError::Io(e) => "Media I/O error: "@ + e@,
            MediaError::Image(e) => "Image processing error: "@ + e@,
            MediaError::Ffmpeg(e) => "FFmpeg error: "@ + e@,
            MediaError::HeadlessChrome(s) => "Headless Chrome error: "@ + s@,
            MediaError::TempFilePersist(e) => "Temporary file persistence error: "@ + e@,
            MediaError::Download(e) => "Media download error: "@ + e@,
            MediaError::ChannelSend(s) => "Media frame channel send error: "@ + s@,
            MediaError::Generic(s) => "Media error: "@ + s@,
            MediaError::UnsupportedFormat(s) => "Unsupported media format: "@ + s@,
        }
    }

    /// A one-line description of the failure.
    pub fn message(&self) -> (out: String)
        ensures
            out@ == self.message_text(),
    {
        match self {
            MediaError::Io(e) => join2("Media I/O error: ", e.as_str()),
            MediaError::Image(e) => join2("Image processing error: ", e.as_str()),
            MediaError::Ffmpeg(e) => join2("FFmpeg error: ", e.as_str()),
            MediaError::HeadlessChrome(s) => join2("Headless Chrome error: ", s.as_str()),
            MediaError::TempFilePersist(e) => join2(
                "Temporary file persistence error: ",
                e.as_str(),
            ),
            MediaError::Download(e) => join2("Media download error: ", e.as_str()),
            MediaError::ChannelSend(s) => join2("Media frame channel send error: ", s.as_str()),
            MediaError::Generic(s) => join2("Media error: ", s.as_str()),
            MediaError::UnsupportedFormat(s) => join2("Unsupported media format: ", s.as_str()),
        }
    }
}

/// Any failure of the client.
#[must_use]
#[derive(Debug)]
pub enum AppError {
    Config(ConfigError),
    CouchDb(CouchDbError),
    Media(MediaError),
    Generic(String),
}

impl AppError {
    /// The text that `message` returns.
    pub open spec fn message_text(self) -> Seq<char> {
        match self {
            AppError::Config(e) => "Application Configuration Error: "@ + e.message_text(),
            AppError::CouchDb(e) => "Application CouchDB Error: "@ + e.message_text(),
            AppError::Media(e) => "Application Media Error: "@ + e.message_text(),
            AppError::Generic(s) => "Application Error: "@ + s@,
        }
    }

    /// A one-line description of the failure.
    pub fn message(&self) -> (out: String)
        ensures
            out@ == self.message_text(),
    {
        match self {
            AppError::Config(e) => {
                let inner = e.message();
                join2("Application Configuration Error: ", inner.as_str())
            },
            AppError::CouchDb(e) => {
                let inner = e.message();
                join2("Application CouchDB Error: ", inner.as_str())
            },
            AppError::Media(e) => {
                let inner = e.message();
                join2("Application Media Error: ", inner.as_str())
            },
            AppError::Generic(s) => join2("Application Error: ", s.as_str()),
        }
    }
}

impl From<ConfigError> for AppError {
    fn from(err: ConfigError) -> (out: AppError) {
        AppError::Config(err)
    }
}

impl FromSpecImpl<ConfigError> for AppError {
    open spec fn obeys_from_spec() -> bool {
        true
    }

    open spec fn from_spec(err: ConfigError) -> AppError {
        AppError::Config(err)
    }
}

impl From<CouchDbError> for AppError {
    fn from(err: CouchDbError) -> (out: AppError) {
        AppError::CouchDb(err)
    }
}

impl FromSpecImpl<CouchDbError> for AppError {
    open spec fn obeys_from_spec() -> bool {
        true
    }

    open spec fn from_spec(err: CouchDbError) -> AppError {
        AppError::CouchDb(err)
    }
}

impl From<MediaError> for AppError {
    fn from(err: MediaError) -> (out: AppError) {
        AppError::Media(err)
    }
}

impl FromSpecImpl<MediaError> for AppError {
    open spec fn obeys_from_spec() -> bool {
        true
    }

    open spec fn from_spec(err: MediaError) -> AppError {
        AppError::Media(err)
    }
}

} // verus!
