//! The values that pass between the router, the handlers and the gateway,
//! each with the mathematical view that the contracts speak of.

use vstd::prelude::*;

verus! {

/// The view of an optional string.
pub open spec fn text_of(s: Option<String>) -> Option<Seq<char>> {
    match s {
        Some(s) => Some(s@),
        None => None,
    }
}

/// A track as the remote service describes it. The service names at least one
/// artist for a track of its catalog; nothing here depends on that.
#[derive(Debug, PartialEq, Eq)]
pub struct Track {
    /// The catalog identifier; a track may come without one.
    pub id: Option<String>,
    /// The display name.
    pub name: String,
    /// The artists' names, in billing order.
    pub artists: Vec<String>,
}

/// A [`Track`] as the contracts see it.
pub struct TrackView {
    pub id: Option<Seq<char>>,
    pub name: Seq<char>,
    pub artists: Seq<Seq<char>>,
}

impl View for Track {
    type V = TrackView;

    open spec fn view(&self) -> TrackView {
        TrackView { id: text_of(self.id), name: self.name@, artists: self.artists.deep_view() }
    }
}

impl DeepView for Track {
    type V = TrackView;

    open spec fn deep_view(&self) -> TrackView {
        self@
    }
}

impl Clone for Track {
    fn clone(&self) -> (copy: Self)
        ensures
            copy@ == self@,
    {
        let id = match &self.id {
            Some(id) => Some(id.clone()),
            None => None,
        };
        let mut artists: Vec<String> = Vec::new();
        let mut i: usize = 0;
        while i < self.artists.len()
            invariant
                i <= self.artists.len(),
                artists.len() == i,
                forall|k: int| 0 <= k < i ==> artists[k]@ == self.artists[k]@,
            decreases self.artists.len() - i,
        {
            artists.push(self.artists[i].clone());
            i = i + 1;
        }
        assert(artists.deep_view() =~= self.artists.deep_view());
        Track { id, name: self.name.clone(), artists }
    }
}

/// One item of the playback queue.
#[derive(Debug, PartialEq, Eq)]
pub enum QueueEntry {
    /// A track.
    Track(Track),
    /// Any other playable media, by its display name.
    Other(String),
}

/// A [`QueueEntry`] as the contracts see it.
pub enum QueueEntryView {
    Track(TrackView),
    Other(Seq<char>),
}

impl View for QueueEntry {
    type V = QueueEntryView;

    open spec fn view(&self) -> QueueEntryView {
        match self {
            QueueEntry::Track(track) => QueueEntryView::Track(track@),
            QueueEntry::Other(name) => QueueEntryView::Other(name@),
        }
    }
}

impl DeepView for QueueEntry {
    type V = QueueEntryView;

    open spec fn deep_view(&self) -> QueueEntryView {
        self@
    }
}

impl Clone for QueueEntry {
    fn clone(&self) -> (copy: Self)
        ensures
            copy@ == self@,
    {
        match self {
            QueueEntry::Track(track) => QueueEntry::Track(track.clone()),
            QueueEntry::Other(name) => QueueEntry::Other(name.clone()),
        }
    }
}

/// What a chat message asks for.
#[derive(Debug, PartialEq, Eq)]
pub enum Command {
    /// List the playback queue.
    ShowQueue,
    /// Queue the track with this identifier.
    QueueByIdentifier(String),
    /// Queue the best match for this search term.
    QueueBySearchTerm(String),
    /// Not a command: nothing is done and nothing is answered.
    Ignore,
}

/// A [`Command`] as the contracts see it.
pub enum CommandView {
    ShowQueue,
    QueueByIdentifier(Seq<char>),
    QueueBySearchTerm(Seq<char>),
    Ignore,
}

impl View for Command {
    type V = CommandView;

    open spec fn view(&self) -> CommandView {
        match self {
            Command::ShowQueue => CommandView::ShowQueue,
            Command::QueueByIdentifier(id) => CommandView::QueueByIdentifier(id@),
            Command::QueueBySearchTerm(term) => CommandView::QueueBySearchTerm(term@),
            Command::Ignore => CommandView::Ignore,
        }
    }
}

impl Clone for Command {
    fn clone(&self) -> (copy: Self)
        ensures
            copy@ == self@,
    {
        match self {
            Command::ShowQueue => Command::ShowQueue,
            Command::QueueByIdentifier(id) => Command::QueueByIdentifier(id.clone()),
            Command::QueueBySearchTerm(term) => Command::QueueBySearchTerm(term.clone()),
            Command::Ignore => Command::Ignore,
        }
    }
}

/// What is sent back to the room.
#[derive(Debug, PartialEq, Eq)]
pub enum Response {
    /// A single line of plain text.
    PlainText(String),
    /// The body of a fenced, monospace block; it may span several lines.
    FormattedBlock(String),
}

/// A [`Response`] as the contracts see it.
pub enum ResponseView {
    PlainText(Seq<char>),
    FormattedBlock(Seq<char>),
}

impl View for Response {
    type V = ResponseView;

    open spec fn view(&self) -> ResponseView {
        match self {
            Response::PlainText(text) => ResponseView::PlainText(text@),
            Response::FormattedBlock(body) => ResponseView::FormattedBlock(body@),
        }
    }
}

impl Clone for Response {
    fn clone(&self) -> (copy: Self)
        ensures
            copy@ == self@,
    {
        match self {
            Response::PlainText(text) => Response::PlainText(text.clone()),
            Response::FormattedBlock(body) => Response::FormattedBlock(body.clone()),
        }
    }
}

/// Why a gateway operation failed.
#[derive(Debug, PartialEq, Eq)]
pub enum GatewayError {
    /// Nothing matched.
    NotFound,
    /// The identifier is not well formed.
    InvalidIdentifier,
    /// The remote service answered with an HTTP error status.
    RemoteHttpError { status: u16, body: String },
    /// Any other failure of the remote service or of the transport.
    RemoteOtherError { message: String },
}

/// A [`GatewayError`] as the contracts see it.
pub enum GatewayErrorView {
    NotFound,
    InvalidIdentifier,
    RemoteHttpError { status: u16, body: Seq<char> },
    RemoteOtherError { message: Seq<char> },
}

impl View for GatewayError {
    type V = GatewayErrorView;

    open spec fn view(&self) -> GatewayErrorView {
        match self {
            GatewayError::NotFound => GatewayErrorView::NotFound,
            GatewayError::InvalidIdentifier => GatewayErrorView::InvalidIdentifier,
            GatewayError::RemoteHttpError { status, body } => GatewayErrorView::RemoteHttpError {
                status: *status,
                body: body@,
            },
            GatewayError::RemoteOtherError { message } => GatewayErrorView::RemoteOtherError {
                message: message@,
            },
        }
    }
}

impl Clone for GatewayError {
    fn clone(&self) -> (copy: Self)
        ensures
            copy@ == self@,
    {
        match self {
            GatewayError::NotFound => GatewayError::NotFound,
            GatewayError::InvalidIdentifier => GatewayError::InvalidIdentifier,
            GatewayError::RemoteHttpError { status, body } => GatewayError::RemoteHttpError {
                status: *status,
                body: body.clone(),
            },
            GatewayError::RemoteOtherError { message } => GatewayError::RemoteOtherError {
                message: message.clone(),
            },
        }
    }
}

} // verus!
