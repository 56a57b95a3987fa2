//! The dispatch entry point: from one chat message event to the first step
//! of its handler.

use crate::handlers::{first_step, start, Step, StepView};
use crate::model::CommandView;
use crate::router::{classify, command_of};
use vstd::prelude::*;

verus! {

/// How the bot stands to the room that an event came from.
#[derive(Debug, Clone, Copy, PartialEq, Eq)]
pub enum Membership {
    Joined,
    Invited,
    Left,
}

/// What a message event carries.
#[derive(Debug, PartialEq, Eq)]
pub enum Content {
    /// Plain text, by its body.
    Text(String),
    /// Anything else: an image, a file, a notice and so on.
    Other,
}

/// A [`Content`] as the contracts see it.
pub enum ContentView {
    Text(Seq<char>),
    Other,
}

impl View for Content {
    type V = ContentView;

    open spec fn view(&self) -> ContentView {
        match self {
            Content::Text(body) => ContentView::Text(body@),
            Content::Other => ContentView::Other,
        }
    }
}

/// The command that a message event stands for: only text in a room that the
/// bot has joined can be one.
pub open spec fn command_in(room: Membership, content: ContentView) -> CommandView {
    match content {
        ContentView::Text(body) => if room == Membership::Joined {
            command_of(body)
        } else {
            CommandView::Ignore
        },
        ContentView::Other => CommandView::Ignore,
    }
}

/// Takes one message event and gives the first step of its handler; nothing
/// for an event that holds no command.
pub fn on_room_message(room: Membership, content: &Content) -> (step: Step)
    ensures
        step@ == first_step(command_in(room, content@)),
        step@ is Nothing <==> command_in(room, content@) is Ignore,
{
    match room {
        Membership::Joined => match content {
            Content::Text(body) => start(classify(body.as_str())),
            Content::Other => Step::Nothing,
        },
        _ => Step::Nothing,
    }
}

} // verus!
