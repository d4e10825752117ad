//! What the client says to the document store and what it makes of the
//! answers: the addresses, the meaning of each status, the change feed's
//! lines and the status document.

use crate::config::AppConfig;
use crate::errors::{CouchDbError, CouchDbFailure};
use crate::json::{
    has_member, json_error_text, json_has_member, json_object_text, json_string_member,
    member_texts, object_text, string_member,
};
use crate::sweep::CleanupSweep;
use crate::text::{decimal, decimal_text, join2};
use vstd::prelude::*;

verus! {

/// How long the change watcher waits before it connects again, in seconds.
pub const RECONNECT_DELAY_SECS: u64 = 10;

/// The address of the slideshow document of display `tv_uuid`.
pub open spec fn document_url_text(couchdb_url: Seq<char>, tv_uuid: Seq<char>) -> Seq<char> {
    couchdb_url + "/slideshows/"@ + tv_uuid
}

/// The address of attachment `name` of the display's document.
pub open spec fn attachment_url_text(
    couchdb_url: Seq<char>,
    tv_uuid: Seq<char>,
    name: Seq<char>,
) -> Seq<char> {
    document_url_text(couchdb_url, tv_uuid) + "/"@ + name
}

/// The address that deletes attachment `name` under revision `rev`.
pub open spec fn delete_url_text(
    couchdb_url: Seq<char>,
    tv_uuid: Seq<char>,
    name: Seq<char>,
    rev: Seq<char>,
) -> Seq<char> {
    attachment_url_text(couchdb_url, tv_uuid, name) + "?rev="@ + rev
}

/// The id of the display's status document.
pub open spec fn status_id_text(tv_uuid: Seq<char>) -> Seq<char> {
    "status_"@ + tv_uuid
}

/// The address of the display's status document.
pub open spec fn status_url_text(couchdb_url: Seq<char>, tv_uuid: Seq<char>) -> Seq<char> {
    couchdb_url + "/slideshows/"@ + status_id_text(tv_uuid)
}

/// The address of the change feed: continuous, with a heartbeat every ten
/// seconds, for the display's document alone, from now on.
pub open spec fn changes_url_text(couchdb_url: Seq<char>, tv_uuid: Seq<char>) -> Seq<char> {
    couchdb_url + "/slideshows/_changes?feed=continuous&heartbeat=10000&doc_ids=[\""@ + tv_uuid
        + "\"]&since=now"@
}

/// The address of the display's slideshow document.
pub fn document_url(config: &AppConfig) -> (url: String)
    ensures
        url@ == document_url_text(config.couchdb_url@, config.tv_uuid@),
{
    let mut url = join2(config.couchdb_url.as_str(), "/slideshows/");
    url.append(config.tv_uuid.as_str());
    url
}

/// The address of one attachment of the display's document.
pub fn attachment_url(config: &AppConfig, attachment_name: &str) -> (url: String)
    ensures
        url@ == attachment_url_text(config.couchdb_url@, config.tv_uuid@, attachment_name@),
{
    let mut url = document_url(config);
    url.append("/");
    url.append(attachment_name);
    url
}

/// The address that deletes one attachment under the given revision.
pub fn delete_url(config: &AppConfig, attachment_name: &str, rev: &str) -> (url: String)
    ensures
        url@ == delete_url_text(config.couchdb_url@, config.tv_uuid@, attachment_name@, rev@),
{
    let mut url = attachment_url(config, attachment_name);
    url.append("?rev=");
    url.append(rev);
    url
}

/// The id of the display's status document.
pub fn status_document_id(config: &AppConfig) -> (id: String)
    ensures
        id@ == status_id_text(config.tv_uuid@),
{
    join2("status_", config.tv_uuid.as_str())
}

/// The address of the display's status document.
pub fn status_url(config: &AppConfig) -> (url: String)
    ensures
        url@ == status_url_text(config.couchdb_url@, config.tv_uuid@),
{
    let id = status_document_id(config);
    let mut url = join2(config.couchdb_url.as_str(), "/slideshows/");
    url.append(id.as_str());
    assert(url@ =~= status_url_text(config.couchdb_url@, config.tv_uuid@));
    url
}

/// The address of the change feed for the display's document.
pub fn changes_url(config: &AppConfig) -> (url: String)
    ensures
        url@ == changes_url_text(config.couchdb_url@, config.tv_uuid@),
{
    let mut url = join2(
        config.couchdb_url.as_str(),
        "/slideshows/_changes?feed=continuous&heartbeat=10000&doc_ids=[\"",
    );
    url.append(config.tv_uuid.as_str());
    url.append("\"]&since=now");
    url
}

/// Whether a status stands for success: the two hundreds.
pub open spec fn success_status(status: u16) -> bool {
    200 <= status < 300
}

/// Whether a status stands for a failure of the request or of the store:
/// the four and five hundreds.
pub open spec fn failure_status(status: u16) -> bool {
    400 <= status < 600
}

/// True exactly for the statuses from 200 to 299.
pub fn is_success(status: u16) -> (r: bool)
    ensures
        r == success_status(status),
{
    200 <= status && status < 300
}

/// True exactly for the statuses from 400 to 599.
pub fn is_failure(status: u16) -> (r: bool)
    ensures
        r == failure_status(status),
{
    400 <= status && status < 600
}

/// What the answer to the fetch of the slideshow document means before its
/// body is read: 404 is "not found", naming the display; any other failure
/// status is an HTTP error that carries `detail`; anything else is no
/// failure.
pub open spec fn document_failure(tv_uuid: Seq<char>, status: u16, detail: Seq<char>) -> Option<
    CouchDbFailure,
> {
    if status == 404 {
        Some(CouchDbFailure::NotFound("Slideshow document for tv_uuid '"@ + tv_uuid + "'"@))
    } else if failure_status(status) {
        Some(CouchDbFailure::HttpError { status, message: detail })
    } else {
        None
    }
}

/// The view of an optional store failure.
pub open spec fn failure_of(error: Option<CouchDbError>) -> Option<CouchDbFailure> {
    match error {
        Some(e) => Some(e@),
        None => None,
    }
}

/// Judges the status of the answer to the fetch of the slideshow document.
/// `detail` is the transport's description of a failure status. Where
/// nothing is returned the body is the document.
pub fn check_document_response(config: &AppConfig, status: u16, detail: String) -> (error: Option<
    CouchDbError,
>)
    ensures
        failure_of(error) == document_failure(config.tv_uuid@, status, detail@),
{
    if status == 404 {
        let mut what = join2("Slideshow document for tv_uuid '", config.tv_uuid.as_str());
        what.append("'");
        Some(CouchDbError::NotFound(what))
    } else if is_failure(status) {
        Some(CouchDbError::HttpError { status, message: detail })
    } else {
        None
    }
}

/// Judges the status of the answer to the fetch of an attachment: a
/// failure status is an HTTP error that carries `detail`.
pub fn check_attachment_response(status: u16, detail: String) -> (error: Option<CouchDbError>)
    ensures
        failure_of(error) == if failure_status(status) {
            Some(CouchDbFailure::HttpError { status, message: detail@ })
        } else {
            None
        },
{
    if is_failure(status) {
        Some(CouchDbError::HttpError { status, message: detail })
    } else {
        None
    }
}

/// What one piece of the change feed is.
#[derive(Clone, Copy, Debug, PartialEq, Eq, Structural)]
pub enum FeedEvent {
    /// An empty line: the store's heartbeat.
    Heartbeat,
    /// A change record: the document is to be fetched again.
    Change,
    /// Anything else; it has no effect.
    Ignored,
}

/// Whether the bytes are a heartbeat: nothing at all, or one line feed.
pub open spec fn is_heartbeat(bytes: Seq<u8>) -> bool {
    bytes.len() == 0 || bytes == seq![10u8]
}

/// What a piece of the feed is, given whether it has an `id` and a `seq`.
pub open spec fn feed_event_of(bytes: Seq<u8>, has_id: bool, has_seq: bool) -> FeedEvent {
    if is_heartbeat(bytes) {
        FeedEvent::Heartbeat
    } else if has_id && has_seq {
        FeedEvent::Change
    } else {
        FeedEvent::Ignored
    }
}

/// Sorts one piece of the change feed, given what its JSON holds: a change
/// record is one that has both an id and a sequence marker.
pub fn classify_feed_line(bytes: &[u8], has_id: bool, has_seq: bool) -> (event: FeedEvent)
    ensures
        event == feed_event_of(bytes@, has_id, has_seq),
{
    if bytes.len() == 0 || (bytes.len() == 1 && bytes[0] == 10) {
        assert(bytes.len() == 1 && bytes[0] == 10 ==> bytes@ =~= seq![10u8]);
        FeedEvent::Heartbeat
    } else {
        assert(bytes@ != seq![10u8]) by {
            if bytes@ == seq![10u8] {
                assert(seq![10u8].len() == 1);
                assert(seq![10u8][0] == 10u8);
            }
        }
        if has_id && has_seq {
            FeedEvent::Change
        } else {
            FeedEvent::Ignored
        }
    }
}

/// Sorts one piece of the change feed as it came off the wire.
pub fn classify_feed_chunk(bytes: &[u8]) -> (event: FeedEvent)
    ensures
        event == feed_event_of(
            bytes@,
            json_has_member(bytes@, "id"@),
            json_has_member(bytes@, "seq"@),
        ),
{
    if bytes.len() == 0 {
        return FeedEvent::Heartbeat;
    }
    let has_id = has_member(bytes, "id");
    let has_seq = has_member(bytes, "seq");
    classify_feed_line(bytes, has_id, has_seq)
}

/// Takes one piece of the change feed into the flag that tells the render
/// loop to fetch the document again: a change raises it, anything else
/// leaves it as it is. Returns whether the render loop is to be woken,
/// which is exactly on a change.
pub fn apply_feed_event(event: FeedEvent, needs_refetch: &mut bool) -> (wake: bool)
    ensures
        wake == (event == FeedEvent::Change),
        *final(needs_refetch) == (*old(needs_refetch) || event == FeedEvent::Change),
{
    match event {
        FeedEvent::Change => {
            *needs_refetch = true;
            true
        },
        _ => false,
    }
}

/// Hands the store's answer to a delete to the sweep: on a success status
/// the attachment counts as deleted and the revision that the body names
/// under `rev`, if it names one, is taken over; on any other status the
/// sweep fails.
pub fn apply_delete_response(sweep: &mut CleanupSweep, status: u16, body: &[u8])
    ensures
        final(sweep)@ == if success_status(status) {
            old(sweep)@.deleted(json_string_member(body@, "rev"@))
        } else {
            old(sweep)@.delete_rejected(status)
        },
{
    if is_success(status) {
        let new_rev = string_member(body, "rev");
        sweep.on_deleted(new_rev);
    } else {
        sweep.on_delete_rejected(status);
    }
}

/// The revision of the status document to overwrite, given the answer to
/// its fetch: the one its body names under `_rev` when the status is 200,
/// none when the body names none or the document does not exist, and a
/// failure on any other status.
pub open spec fn prior_revision_of(
    tv_uuid: Seq<char>,
    status: u16,
    rev_in_body: Option<Seq<char>>,
) -> Result<Option<Seq<char>>, CouchDbFailure> {
    if status == 200 {
        Ok(rev_in_body)
    } else if status == 404 {
        Ok(None)
    } else {
        Err(
            CouchDbFailure::HttpError {
                status,
                message: "Failed to fetch status doc '"@ + status_id_text(tv_uuid) + "', status: "@
                    + decimal_text(status as nat),
            },
        )
    }
}

/// Whether `result` is what `expected` says.
pub open spec fn revision_matches(
    result: Result<Option<String>, CouchDbError>,
    expected: Result<Option<Seq<char>>, CouchDbFailure>,
) -> bool {
    match result {
        Ok(Some(rev)) => expected == Ok::<Option<Seq<char>>, CouchDbFailure>(Some(rev@)),
        Ok(None) => expected == Ok::<Option<Seq<char>>, CouchDbFailure>(None),
        Err(error) => expected == Err::<Option<Seq<char>>, CouchDbFailure>(error@),
    }
}

/// Decides which revision an update of the status document must name,
/// given the status of its fetch and the revision found in the body.
pub fn prior_revision_from(config: &AppConfig, status: u16, rev_in_body: Option<String>) -> (result:
    Result<Option<String>, CouchDbError>)
    ensures
        revision_matches(
            result,
            prior_revision_of(
                config.tv_uuid@,
                status,
                match rev_in_body {
                    Some(rev) => Some(rev@),
                    None => None,
                },
            ),
        ),
{
    if status == 200 {
        Ok(rev_in_body)
    } else if status == 404 {
        Ok(None)
    } else {
        let id = status_document_id(config);
        let code = decimal(status as u64);
        let mut message = join2("Failed to fetch status doc '", id.as_str());
        message.append("', status: ");
        message.append(code.as_str());
        Err(CouchDbError::HttpError { status, message })
    }
}

/// Decides which revision an update of the status document must name,
/// given the answer to its fetch.
pub fn prior_revision(config: &AppConfig, status: u16, body: &[u8]) -> (result: Result<
    Option<String>,
    CouchDbError,
>)
    ensures
        revision_matches(
            result,
            prior_revision_of(config.tv_uuid@, status, json_string_member(body@, "_rev"@)),
        ),
{
    let rev_in_body = if status == 200 {
        string_member(body, "_rev")
    } else {
        None
    };
    prior_revision_from(config, status, rev_in_body)
}

/// The members of the status document: its type, the display, the slide
/// that is up and its media, the time, and, only where a status document
/// was found before, its revision.
pub open spec fn status_members(
    tv_uuid: Seq<char>,
    current_slide_id: Seq<char>,
    current_slide_filename: Seq<char>,
    timestamp: Seq<char>,
    prior_rev: Option<Seq<char>>,
) -> Seq<(Seq<char>, Seq<char>)> {
    let always = seq![
        ("type"@, "tv_status"@),
        ("tv_uuid"@, tv_uuid),
        ("current_slide_id"@, current_slide_id),
        ("current_slide_filename"@, current_slide_filename),
        ("timestamp"@, timestamp),
    ];
    match prior_rev {
        Some(rev) => always.push(("_rev"@, rev)),
        None => always,
    }
}

/// The members of the status document, in the order in which they are
/// written.
pub fn status_payload(
    config: &AppConfig,
    current_slide_id: &str,
    current_slide_filename: &str,
    timestamp: &str,
    prior_rev: Option<String>,
) -> (members: Vec<(String, String)>)
    ensures
        member_texts(members@) == status_members(
            config.tv_uuid@,
            current_slide_id@,
            current_slide_filename@,
            timestamp@,
            match prior_rev {
                Some(rev) => Some(rev@),
                None => None,
            },
        ),
{
    let mut members: Vec<(String, String)> = Vec::new();
    members.push((String::from_str("type"), String::from_str("tv_status")));
    members.push((String::from_str("tv_uuid"), config.tv_uuid.clone()));
    members.push((String::from_str("current_slide_id"), String::from_str(current_slide_id)));
    members.push(
        (String::from_str("current_slide_filename"), String::from_str(current_slide_filename)),
    );
    members.push((String::from_str("timestamp"), String::from_str(timestamp)));
    match prior_rev {
        Some(rev) => {
            members.push((String::from_str("_rev"), rev));
        },
        None => {},
    }
    assert(member_texts(members@) =~= status_members(
        config.tv_uuid@,
        current_slide_id@,
        current_slide_filename@,
        timestamp@,
        match prior_rev {
            Some(rev) => Some(rev@),
            None => None,
        },
    ));
    members
}

/// The JSON text of the status document. Fails with `SerdeJson` exactly
/// when the object cannot be written.
pub fn status_body(
    config: &AppConfig,
    current_slide_id: &str,
    current_slide_filename: &str,
    timestamp: &str,
    prior_rev: Option<String>,
) -> (result: Result<String, CouchDbError>)
    ensures
        ({
            let text = json_object_text(
                status_members(
                    config.tv_uuid@,
                    current_slide_id@,
                    current_slide_filename@,
                    timestamp@,
                    match prior_rev {
                        Some(rev) => Some(rev@),
                        None => None,
                    },
                ),
            );
            match result {
                Ok(body) => text == Some(body@),
                Err(error) => text is None && error is SerdeJson,
            }
        }),
{
    let members = status_payload(
        config,
        current_slide_id,
        current_slide_filename,
        timestamp,
        prior_rev,
    );
    match object_text(&members) {
        Ok(body) => Ok(body),
        Err(error) => Err(CouchDbError::SerdeJson(json_error_text(&error))),
    }
}

/// Judges the answer to the update of the status document: a success
/// status is success, any other status an HTTP error that carries the body.
pub fn check_status_update(config: &AppConfig, status: u16, body_text: &str) -> (result: Result<
    (),
    CouchDbError,
>)
    ensures
        match result {
            Ok(_) => success_status(status),
            Err(error) => !success_status(status) && error@ == (CouchDbFailure::HttpError {
                status,
                message: "Failed to update TV status for "@ + config.tv_uuid@ + ": "@ + body_text@,
            }),
        },
{
    if is_success(status) {
        Ok(())
    } else {
        let mut message = join2("Failed to update TV status for ", config.tv_uuid.as_str());
        message.append(": ");
        message.append(body_text);
        Err(CouchDbError::HttpError { status, message })
    }
}

/// The body text that stands in when the body of a refused update cannot
/// be read; `detail` says why it could not.
pub fn unreadable_body_text(detail: &str) -> (text: String)
    ensures
        text@ == "N/A (failed to read error body: "@ + detail@ + ")"@,
{
    let mut text = join2("N/A (failed to read error body: ", detail);
    text.append(")");
    text
}

} // verus!
