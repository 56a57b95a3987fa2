//! The remote gateway: what is handed to the music service and how its answers
//! are read. The calls themselves are made by whoever owns the session.

use crate::model::{
    GatewayError, GatewayErrorView, QueueEntry, QueueEntryView, Track, TrackView,
};
use vstd::prelude::*;

verus! {

/// How many results a search asks the service for.
pub const SEARCH_LIMIT: u32 = 1;

/// What is reported of a track that cannot be queued for want of an identifier.
pub const MISSING_IDENTIFIER_TEXT: &'static str = "Attempted to queue track without ID";

/// rspotify's error for an identifier that it cannot read. Nothing of it is
/// looked at: every such error stands for a malformed identifier.
#[verifier::external_type_specification]
#[verifier::external_body]
pub struct ExIdError(rspotify::model::IdError);

/// The track identifier that rspotify reads from `id_or_uri`, which is a bare
/// identifier or a URI of a track; `None` where it reads none.
pub uninterp spec fn track_id_of(id_or_uri: Seq<char>) -> Option<Seq<char>>;

/// Parses `id_or_uri` with `rspotify::model::TrackId::from_id_or_uri` and hands
/// out what `Id::id` gives for the result. The contract gives the identifier
/// its name, says that an error means that there is none, and claims no more.
#[verifier::external_body]
fn parse_track_id(id_or_uri: &str) -> (parsed: Result<String, rspotify::model::IdError>)
    ensures
        parsed matches Ok(id) ==> track_id_of(id_or_uri@) == Some(id@),
        parsed is Err ==> track_id_of(id_or_uri@) is None,
{
    let id = rspotify::model::TrackId::from_id_or_uri(id_or_uri)?;
    Ok(rspotify::prelude::Id::id(&id).to_string())
}

/// What checking an identifier gives: the identifier as the service knows it,
/// or the error that reports a malformed one.
pub open spec fn checked(id: Option<Seq<char>>) -> Result<Seq<char>, GatewayErrorView> {
    match id {
        Some(id) => Ok(id),
        None => Err(GatewayErrorView::InvalidIdentifier),
    }
}

/// The view of a checked identifier.
pub open spec fn checked_view(id: Result<String, GatewayError>) -> Result<
    Seq<char>,
    GatewayErrorView,
> {
    match id {
        Ok(id) => Ok(id@),
        Err(error) => Err(error@),
    }
}

/// Checks that `id` is a well-formed track identifier, and gives it in its
/// bare form.
pub fn check_identifier(id: &str) -> (id_checked: Result<String, GatewayError>)
    ensures
        checked_view(id_checked) == checked(track_id_of(id@)),
{
    match parse_track_id(id) {
        Ok(id) => Ok(id),
        Err(_) => Err(GatewayError::InvalidIdentifier),
    }
}

/// The best match among the results of a search: the first, if there is one.
pub open spec fn best_match(results: Seq<TrackView>) -> Option<TrackView> {
    if results.len() == 0 {
        None
    } else {
        Some(results[0])
    }
}

/// The view of an optional track.
pub open spec fn track_of(found: Option<Track>) -> Option<TrackView> {
    match found {
        Some(track) => Some(track@),
        None => None,
    }
}

/// Picks the best match among the results that a search came back with.
pub fn first_match(results: Vec<Track>) -> (found: Option<Track>)
    ensures
        track_of(found) == best_match(results.deep_view()),
{
    let mut results = results;
    if results.len() == 0 {
        None
    } else {
        Some(results.swap_remove(0))
    }
}

/// The identifier under which `track` is queued, or why it cannot be.
pub open spec fn queue_target(track: TrackView) -> Result<Seq<char>, GatewayErrorView> {
    match track.id {
        Some(id) => Ok(id),
        None => Err(GatewayErrorView::RemoteOtherError { message: MISSING_IDENTIFIER_TEXT@ }),
    }
}

/// Gives the identifier under which `track` is queued; a track without one
/// cannot be queued.
pub fn enqueue_target(track: &Track) -> (target: Result<String, GatewayError>)
    ensures
        checked_view(target) == queue_target(track@),
{
    match &track.id {
        Some(id) => Ok(id.clone()),
        None => Err(
            GatewayError::RemoteOtherError { message: MISSING_IDENTIFIER_TEXT.to_owned() },
        ),
    }
}

/// The view of a fetched track.
pub open spec fn track_result(result: Result<Track, GatewayError>) -> Result<
    TrackView,
    GatewayErrorView,
> {
    match result {
        Ok(track) => Ok(track@),
        Err(error) => Err(error@),
    }
}

/// The view of what a search found.
pub open spec fn search_result(result: Result<Option<Track>, GatewayError>) -> Result<
    Option<TrackView>,
    GatewayErrorView,
> {
    match result {
        Ok(found) => Ok(track_of(found)),
        Err(error) => Err(error@),
    }
}

/// The view of what queueing answered.
pub open spec fn enqueue_result(result: Result<(), GatewayError>) -> Result<(), GatewayErrorView> {
    match result {
        Ok(done) => Ok(done),
        Err(error) => Err(error@),
    }
}

/// The view of a listed queue.
pub open spec fn queue_result(result: Result<Vec<QueueEntry>, GatewayError>) -> Result<
    Seq<QueueEntryView>,
    GatewayErrorView,
> {
    match result {
        Ok(entries) => Ok(entries.deep_view()),
        Err(error) => Err(error@),
    }
}

} // verus!
