//! The formatter: tracks, queues and errors as the text that the room sees.

use crate::model::{
    GatewayError, GatewayErrorView, QueueEntry, QueueEntryView, Response, ResponseView, Track,
    TrackView,
};
use crate::text::{
    decimal, join, joined, occurs_at, occurs_in, push_decimal, trim_end, trimmed_end,
};
use vstd::prelude::*;

verus! {

/// What stands for an identifier that is not well formed.
pub const INVALID_IDENTIFIER_TEXT: &'static str = "Invalid track identifier";

/// What stands for a lookup that matched nothing.
pub const NOT_FOUND_TEXT: &'static str = "No tracks found";

/// What stands between two artists.
pub open spec fn artist_separator() -> Seq<char> {
    seq![',', ' ']
}

/// What stands between the artists and the name.
pub open spec fn title_separator() -> Seq<char> {
    seq![' ', '-', ' ']
}

/// What ends a line.
pub open spec fn newline() -> Seq<char> {
    seq!['\n']
}

/// The line that opens and closes a fenced block.
pub open spec fn fence() -> Seq<char> {
    seq!['`', '`', '`']
}

/// A track's display string: its artists, comma-separated, then the name.
/// Without artists only the separator and the name are left.
pub open spec fn track_text(track: TrackView) -> Seq<char> {
    join(track.artists, artist_separator()) + title_separator() + track.name
}

/// The line that lists one queue entry.
pub open spec fn entry_text(entry: QueueEntryView) -> Seq<char> {
    match entry {
        QueueEntryView::Track(track) => track_text(track),
        QueueEntryView::Other(name) => name,
    }
}

/// The body that lists a queue: one line per entry, in order, without
/// trailing whitespace.
pub open spec fn queue_text(entries: Seq<QueueEntryView>) -> Seq<char> {
    trim_end(join(entries.map_values(|entry: QueueEntryView| entry_text(entry)), newline()))
}

/// The response that reports an error: the status and the raw body of an HTTP
/// error as a block, a short message for any other.
pub open spec fn error_response(error: GatewayErrorView) -> ResponseView {
    match error {
        GatewayErrorView::RemoteHttpError { status, body } => ResponseView::FormattedBlock(
            decimal(status as nat) + newline() + body,
        ),
        GatewayErrorView::RemoteOtherError { message } => ResponseView::PlainText(message),
        GatewayErrorView::InvalidIdentifier => ResponseView::PlainText(INVALID_IDENTIFIER_TEXT@),
        GatewayErrorView::NotFound => ResponseView::PlainText(NOT_FOUND_TEXT@),
    }
}

/// The text of the outgoing message: plain text as it is, a block between
/// two fence lines.
pub open spec fn message_text(response: ResponseView) -> Seq<char> {
    match response {
        ResponseView::PlainText(text) => text,
        ResponseView::FormattedBlock(body) => fence() + newline() + body + newline() + fence(),
    }
}

/// Renders a track's display string.
pub fn track(item: &Track) -> (out: String)
    ensures
        out@ == track_text(item@),
{
    proof {
        reveal_strlit(", ");
        reveal_strlit(" - ");
        assert(", "@ =~= artist_separator());
    }
    let mut out = joined(&item.artists, ", ");
    out.append(" - ");
    out.append(item.name.as_str());
    out
}

/// Renders one queue entry as its line.
pub fn entry(item: &QueueEntry) -> (out: String)
    ensures
        out@ == entry_text(item@),
{
    match item {
        QueueEntry::Track(t) => track(t),
        QueueEntry::Other(name) => name.clone(),
    }
}

/// Renders the playback queue as a block.
pub fn queue(entries: &Vec<QueueEntry>) -> (response: Response)
    ensures
        response@ == ResponseView::FormattedBlock(queue_text(entries.deep_view())),
{
    let ghost lines_of = entries.deep_view().map_values(|entry: QueueEntryView| entry_text(entry));
    let mut lines: Vec<String> = Vec::new();
    let mut i: usize = 0;
    while i < entries.len()
        invariant
            i <= entries.len(),
            lines.len() == i,
            lines_of == entries.deep_view().map_values(|entry: QueueEntryView| entry_text(entry)),
            forall|k: int| 0 <= k < i ==> lines[k]@ == lines_of[k],
        decreases entries.len() - i,
    {
        lines.push(entry(&entries[i]));
        i = i + 1;
    }
    assert(lines.deep_view() =~= lines_of);
    proof {
        reveal_strlit("\n");
        assert("\n"@ =~= newline());
    }
    let listing = joined(&lines, "\n");
    Response::FormattedBlock(trimmed_end(listing.as_str()))
}

/// Renders a gateway error as the response that reports it.
pub fn error(cause: GatewayError) -> (response: Response)
    ensures
        response@ == error_response(cause@),
{
    match cause {
        GatewayError::RemoteHttpError { status, body } => {
            proof {
                reveal_strlit("\n");
            }
            let mut out = String::new();
            push_decimal(&mut out, status);
            out.append("\n");
            out.append(body.as_str());
            assert(out@ =~= decimal(status as nat) + newline() + body@);
            Response::FormattedBlock(out)
        },
        GatewayError::RemoteOtherError { message } => Response::PlainText(message),
        GatewayError::InvalidIdentifier => Response::PlainText(INVALID_IDENTIFIER_TEXT.to_owned()),
        GatewayError::NotFound => Response::PlainText(NOT_FOUND_TEXT.to_owned()),
    }
}

impl Response {
    /// Whether the response is a block, to be sent as formatted text.
    pub fn is_block(&self) -> (yes: bool)
        ensures
            yes == (self@ is FormattedBlock),
    {
        match self {
            Response::PlainText(_) => false,
            Response::FormattedBlock(_) => true,
        }
    }

    /// The text of the outgoing message.
    pub fn text(&self) -> (out: String)
        ensures
            out@ == message_text(self@),
    {
        match self {
            Response::PlainText(text) => text.clone(),
            Response::FormattedBlock(body) => {
                proof {
                    reveal_strlit("```\n");
                    reveal_strlit("\n```");
                }
                let mut out = "```\n".to_owned();
                out.append(body.as_str());
                out.append("\n```");
                out
            },
        }
    }
}

/// In a track's display string the title separator follows the last artist at
/// once: no artist separator trails the artists.
pub proof fn last_artist_meets_title(item: TrackView)
    requires
        item.artists.len() > 0,
    ensures
        (item.artists.last() + title_separator() + item.name).is_suffix_of(track_text(item)),
{
}

/// An empty queue is listed as an empty body.
pub proof fn empty_queue_is_empty_body()
    ensures
        queue_text(Seq::empty()) == Seq::<char>::empty(),
        message_text(ResponseView::FormattedBlock(queue_text(Seq::empty()))) == fence() + newline()
            + newline() + fence(),
{
}

/// The report of an HTTP error is a block that shows the status in base ten
/// and the body as it came.
pub proof fn http_error_shows_status_and_body(status: u16, body: Seq<char>)
    ensures
        error_response(GatewayErrorView::RemoteHttpError { status, body }) matches ResponseView::FormattedBlock(
            text,
        ) && occurs_in(decimal(status as nat), text) && occurs_in(body, text),
{
    let number = decimal(status as nat);
    let text = number + newline() + body;
    let at: int = number.len() as int + 1;
    assert(text.subrange(0, number.len() as int) =~= number);
    assert(occurs_at(number, text, 0));
    assert(text.subrange(at, at + body.len()) =~= body);
    assert(occurs_at(body, text, at));
}

} // verus!
