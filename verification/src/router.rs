//! The command router: from the body of a chat message to a [`Command`].

use crate::model::{text_of, Command, CommandView};
use crate::text::{chars_of, trim, trimmed_from};
use vstd::prelude::*;

verus! {

/// The regular expression that finds a track link and captures its identifier:
/// everything after `/track/` up to a question mark or the end of the text.
pub const TRACK_URL_PATTERN: &'static str = "https://open\\.spotify\\.com/track/([^\\?]+)";

/// The literal that every command starts with.
pub open spec fn prefix() -> Seq<char> {
    seq!['!', 'q']
}

/// The capture group of [`TRACK_URL_PATTERN`] that holds the identifier.
pub const IDENTIFIER_GROUP: usize = 1;

/// What the regex crate finds for capture group `group` in the leftmost match
/// of the regular expression `pattern` in `haystack`: the text of the group, or
/// `None` where `pattern` is no valid regular expression, nothing in `haystack`
/// matches it, or the group takes no part in the match.
pub uninterp spec fn regex_capture(pattern: Seq<char>, haystack: Seq<char>, group: usize) -> Option<
    Seq<char>,
>;

/// The command that a message body stands for, given the identifier `link`
/// captured from a track link in what follows the prefix, if there is one.
///
/// A body without the prefix is no command. The bare prefix asks for the queue.
/// A track link asks for that track. Anything else that reaches beyond the
/// prefix and one more character is a search for what follows them, trimmed.
pub open spec fn command_for(body: Seq<char>, link: Option<Seq<char>>) -> CommandView {
    if !prefix().is_prefix_of(body) {
        CommandView::Ignore
    } else if body == prefix() {
        CommandView::ShowQueue
    } else if let Some(id) = link {
        CommandView::QueueByIdentifier(id)
    } else if body.len() > 3 {
        CommandView::QueueBySearchTerm(trim(body.skip(3)))
    } else {
        CommandView::Ignore
    }
}

/// The command that a message body stands for: the track-link pattern is
/// searched in what follows the prefix, and [`command_for`] decides.
pub open spec fn command_of(body: Seq<char>) -> CommandView {
    command_for(body, regex_capture(TRACK_URL_PATTERN@, body.skip(2), IDENTIFIER_GROUP))
}

/// Searches `haystack` with `regex::Regex::new(pattern)` and `Regex::captures`,
/// and hands out the text of one capture group (`Captures::get`,
/// `Match::as_str`). The contract gives that result its name and claims no more
/// of it; a pattern that does not compile finds nothing.
#[verifier::external_body]
fn capture(pattern: &str, haystack: &str, group: usize) -> (found: Option<String>)
    ensures
        text_of(found) == regex_capture(pattern@, haystack@, group),
{
    let re = regex::Regex::new(pattern).ok()?;
    let found = re.captures(haystack)?.get(group)?;
    Some(found.as_str().to_string())
}

/// Whether `chars` starts with the command prefix.
fn has_prefix(chars: &Vec<char>) -> (yes: bool)
    ensures
        yes == prefix().is_prefix_of(chars@),
{
    chars.len() >= 2 && chars[0] == '!' && chars[1] == 'q'
}

/// Classifies a message body, given what the track-link pattern captured in
/// the part of the body after the prefix.
pub fn classify_with(body: &str, link: Option<String>) -> (command: Command)
    ensures
        command@ == command_for(body@, text_of(link)),
{
    let chars = chars_of(body);
    if !has_prefix(&chars) {
        return Command::Ignore;
    }
    if chars.len() == 2 {
        assert(chars@ =~= prefix());
        return Command::ShowQueue;
    }
    match link {
        Some(id) => Command::QueueByIdentifier(id),
        None => {
            if chars.len() > 3 {
                Command::QueueBySearchTerm(trimmed_from(body, 3))
            } else {
                Command::Ignore
            }
        },
    }
}

/// Classifies the body of a chat message.
pub fn classify(body: &str) -> (command: Command)
    ensures
        command@ == command_of(body@),
        !prefix().is_prefix_of(body@) ==> command@ == CommandView::Ignore,
{
    let chars = chars_of(body);
    if has_prefix(&chars) && chars.len() > 2 {
        let rest = body.substring_char(2, chars.len());
        let link = capture(TRACK_URL_PATTERN, rest, IDENTIFIER_GROUP);
        classify_with(body, link)
    } else {
        assert(prefix().is_prefix_of(body@) ==> body@ =~= prefix());
        classify_with(body, None)
    }
}

/// A body that does not start with the prefix is never a command, whatever
/// else it holds.
pub proof fn unprefixed_is_ignored(body: Seq<char>, link: Option<Seq<char>>)
    requires
        !prefix().is_prefix_of(body),
    ensures
        command_for(body, link) == CommandView::Ignore,
{
}

} // verus!
