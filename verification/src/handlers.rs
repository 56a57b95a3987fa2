//! The command handlers, as a machine of steps: each step either asks one
//! thing of the gateway or settles the command. Whoever talks to the gateway
//! performs the step and hands the answer to the function that decides on it.

use crate::formatted::{error, error_response, queue, queue_text, track, track_text};
use crate::gateway::{
    check_identifier, checked, checked_view, enqueue_result, enqueue_target, queue_result,
    queue_target, search_result, track_id_of, track_result, SEARCH_LIMIT,
};
use crate::model::{
    Command, CommandView, GatewayError, GatewayErrorView, QueueEntry, QueueEntryView, Response,
    ResponseView, Track, TrackView,
};
use vstd::prelude::*;

verus! {

/// What a confirmation starts with.
pub const QUEUED_TEXT: &'static str = "Queued: ";

/// What the report of a search without a match starts with.
pub const NO_MATCH_TEXT: &'static str = "No tracks found matching: \"";

/// What the report of a search without a match ends with.
pub const NO_MATCH_END: &'static str = "\"";

/// What is to be done next for a command.
#[derive(Debug, PartialEq, Eq)]
pub enum Step {
    /// Ask the gateway for the playback queue.
    FetchQueue,
    /// Ask the gateway for the track with this identifier.
    FetchTrack { id: String },
    /// Ask the gateway to search tracks for this term, for so many results.
    Search { term: String, limit: u32 },
    /// Ask the gateway to queue this track, which has an identifier.
    Enqueue { track: Track },
    /// Send this response: the command is settled.
    Respond(Response),
    /// Do nothing: there was no command.
    Nothing,
}

/// A [`Step`] as the contracts see it.
pub enum StepView {
    FetchQueue,
    FetchTrack { id: Seq<char> },
    Search { term: Seq<char>, limit: u32 },
    Enqueue { track: TrackView },
    Respond(ResponseView),
    Nothing,
}

impl View for Step {
    type V = StepView;

    open spec fn view(&self) -> StepView {
        match self {
            Step::FetchQueue => StepView::FetchQueue,
            Step::FetchTrack { id } => StepView::FetchTrack { id: id@ },
            Step::Search { term, limit } => StepView::Search { term: term@, limit: *limit },
            Step::Enqueue { track } => StepView::Enqueue { track: track@ },
            Step::Respond(response) => StepView::Respond(response@),
            Step::Nothing => StepView::Nothing,
        }
    }
}

/// The confirmation that `track` was queued.
pub open spec fn queued_text(track: TrackView) -> Seq<char> {
    QUEUED_TEXT@ + track_text(track)
}

/// The report that a search for `term` matched nothing.
pub open spec fn no_match_text(term: Seq<char>) -> Seq<char> {
    NO_MATCH_TEXT@ + term + NO_MATCH_END@
}

/// The step that follows the check of an identifier: fetch the track, or
/// report the malformed identifier.
pub open spec fn fetch_step(id: Result<Seq<char>, GatewayErrorView>) -> StepView {
    match id {
        Ok(id) => StepView::FetchTrack { id },
        Err(error) => StepView::Respond(error_response(error)),
    }
}

/// The step that queues `track`, or reports why it cannot be queued.
pub open spec fn queue_step(track: TrackView) -> StepView {
    match queue_target(track) {
        Ok(_) => StepView::Enqueue { track },
        Err(error) => StepView::Respond(error_response(error)),
    }
}

/// The first step for a command. An identifier that is not well formed is
/// reported as such: it is never taken for a search term.
pub open spec fn first_step(command: CommandView) -> StepView {
    match command {
        CommandView::ShowQueue => StepView::FetchQueue,
        CommandView::QueueByIdentifier(id) => fetch_step(checked(track_id_of(id))),
        CommandView::QueueBySearchTerm(term) => StepView::Search { term, limit: SEARCH_LIMIT },
        CommandView::Ignore => StepView::Nothing,
    }
}

/// The response to the gateway's answer about the queue.
pub open spec fn after_queue(
    answer: Result<Seq<QueueEntryView>, GatewayErrorView>,
) -> ResponseView {
    match answer {
        Ok(entries) => ResponseView::FormattedBlock(queue_text(entries)),
        Err(error) => error_response(error),
    }
}

/// The step after the gateway's answer about a track.
pub open spec fn after_fetch(answer: Result<TrackView, GatewayErrorView>) -> StepView {
    match answer {
        Ok(track) => queue_step(track),
        Err(error) => StepView::Respond(error_response(error)),
    }
}

/// The step after the gateway's answer to a search for `term`.
pub open spec fn after_search(
    term: Seq<char>,
    answer: Result<Option<TrackView>, GatewayErrorView>,
) -> StepView {
    match answer {
        Ok(Some(track)) => queue_step(track),
        Ok(None) => StepView::Respond(ResponseView::PlainText(no_match_text(term))),
        Err(error) => StepView::Respond(error_response(error)),
    }
}

/// The response to the gateway's answer about queueing `track`.
pub open spec fn after_enqueue(
    track: TrackView,
    answer: Result<(), GatewayErrorView>,
) -> ResponseView {
    match answer {
        Ok(_) => ResponseView::PlainText(queued_text(track)),
        Err(error) => error_response(error),
    }
}

/// What a gateway answers to each thing it may be asked.
pub struct Answers {
    pub queue: Result<Seq<QueueEntryView>, GatewayErrorView>,
    pub track: spec_fn(Seq<char>) -> Result<TrackView, GatewayErrorView>,
    pub search: spec_fn(Seq<char>) -> Result<Option<TrackView>, GatewayErrorView>,
    pub enqueue: spec_fn(TrackView) -> Result<(), GatewayErrorView>,
}

/// The step that follows `step` once the gateway has answered it.
pub open spec fn next_step(step: StepView, answers: Answers) -> StepView {
    match step {
        StepView::FetchQueue => StepView::Respond(after_queue(answers.queue)),
        StepView::FetchTrack { id } => after_fetch((answers.track)(id)),
        StepView::Search { term, limit } => after_search(term, (answers.search)(term)),
        StepView::Enqueue { track } => StepView::Respond(
            after_enqueue(track, (answers.enqueue)(track)),
        ),
        StepView::Respond(response) => StepView::Respond(response),
        StepView::Nothing => StepView::Nothing,
    }
}

/// How many answers of the gateway a step may still need.
pub open spec fn rank(step: StepView) -> nat {
    match step {
        StepView::FetchTrack { .. } => 2,
        StepView::Search { .. } => 2,
        StepView::FetchQueue => 1,
        StepView::Enqueue { .. } => 1,
        StepView::Respond(_) => 0,
        StepView::Nothing => 0,
    }
}

/// Whether a step asks nothing more of the gateway.
pub open spec fn settled(step: StepView) -> bool {
    step is Respond || step is Nothing
}

/// The response that a step leads to, given the gateway's answers; none where
/// there was no command.
pub open spec fn outcome(step: StepView, answers: Answers) -> Option<ResponseView>
    decreases rank(step),
{
    match step {
        StepView::Respond(response) => Some(response),
        StepView::Nothing => None,
        _ => outcome(next_step(step, answers), answers),
    }
}

/// The track that a step leads to queueing, given the gateway's answers; none
/// where it leads to none.
pub open spec fn queued_by(step: StepView, answers: Answers) -> Option<TrackView>
    decreases rank(step),
{
    match step {
        StepView::Enqueue { track } => Some(track),
        StepView::FetchTrack { .. } => queued_by(next_step(step, answers), answers),
        StepView::Search { .. } => queued_by(next_step(step, answers), answers),
        _ => None,
    }
}

/// Decides what follows the check of an identifier.
pub fn fetch_track(id: Result<String, GatewayError>) -> (step: Step)
    ensures
        step@ == fetch_step(checked_view(id)),
{
    match id {
        Ok(id) => Step::FetchTrack { id },
        Err(cause) => Step::Respond(error(cause)),
    }
}

/// Starts on a command: the first thing to ask of the gateway, the report of
/// a malformed identifier, or nothing for what is no command.
pub fn start(command: Command) -> (step: Step)
    ensures
        step@ == first_step(command@),
        step@ is Nothing <==> command@ is Ignore,
{
    match command {
        Command::ShowQueue => Step::FetchQueue,
        Command::QueueByIdentifier(id) => fetch_track(check_identifier(id.as_str())),
        Command::QueueBySearchTerm(term) => Step::Search { term, limit: SEARCH_LIMIT },
        Command::Ignore => Step::Nothing,
    }
}

/// Decides on the listed queue: the listing as a block, or the report of the
/// failure.
pub fn get_queue_handler(answer: Result<Vec<QueueEntry>, GatewayError>) -> (response: Response)
    ensures
        response@ == after_queue(queue_result(answer)),
{
    match answer {
        Ok(entries) => queue(&entries),
        Err(cause) => error(cause),
    }
}

/// Goes on to queue a track: a track without an identifier cannot be queued
/// and is reported instead.
pub fn queue_track(item: Track) -> (step: Step)
    ensures
        step@ == queue_step(item@),
        step@ is Enqueue || step@ is Respond,
{
    match enqueue_target(&item) {
        Ok(_) => Step::Enqueue { track: item },
        Err(cause) => Step::Respond(error(cause)),
    }
}

/// Decides on a fetched track: queue it, or report the failure.
pub fn get_track_handler(answer: Result<Track, GatewayError>) -> (step: Step)
    ensures
        step@ == after_fetch(track_result(answer)),
        step@ is Enqueue || step@ is Respond,
{
    match answer {
        Ok(found) => queue_track(found),
        Err(cause) => Step::Respond(error(cause)),
    }
}

/// Decides on the result of a search for `term`: queue the match, say that
/// nothing matched, or report the failure.
pub fn search_track_handler(term: &str, answer: Result<Option<Track>, GatewayError>) -> (step:
    Step)
    ensures
        step@ == after_search(term@, search_result(answer)),
        step@ is Enqueue || step@ is Respond,
{
    match answer {
        Ok(Some(found)) => queue_track(found),
        Ok(None) => {
            let mut text = NO_MATCH_TEXT.to_owned();
            text.append(term);
            text.append(NO_MATCH_END);
            Step::Respond(Response::PlainText(text))
        },
        Err(cause) => Step::Respond(error(cause)),
    }
}

/// Decides on the answer to queueing `item`: the confirmation, or the report
/// of the failure.
pub fn track_queued(item: &Track, answer: Result<(), GatewayError>) -> (response: Response)
    ensures
        response@ == after_enqueue(item@, enqueue_result(answer)),
{
    match answer {
        Ok(_) => {
            let mut text = QUEUED_TEXT.to_owned();
            let shown = track(item);
            text.append(shown.as_str());
            Response::PlainText(text)
        },
        Err(cause) => error(cause),
    }
}

/// Whether `step` asks nothing more of the gateway.
pub fn is_settled(step: &Step) -> (yes: bool)
    ensures
        yes == settled(step@),
{
    match step {
        Step::Respond(_) => true,
        Step::Nothing => true,
        _ => false,
    }
}

/// Every answer of the gateway brings a step nearer to its end: a lookup is
/// followed by queueing or by a response, anything else by a response.
pub proof fn every_step_settles(step: StepView, answers: Answers)
    ensures
        settled(step) || rank(next_step(step, answers)) < rank(step),
        settled(next_step(next_step(step, answers), answers)),
{
}

/// Every command but `Ignore` is answered with exactly one response, whatever
/// the gateway answers, and `Ignore` with none.
pub proof fn every_command_is_answered(command: CommandView, answers: Answers)
    ensures
        outcome(first_step(command), answers) is Some <==> !(command is Ignore),
{
    let first = first_step(command);
    let second = next_step(first, answers);
    every_step_settles(first, answers);
    if !settled(first) && !settled(second) {
        assert(outcome(second, answers) == outcome(next_step(second, answers), answers));
    }
}

/// A search that matches nothing is answered by saying so, with the term in
/// quotes, and nothing is queued.
pub proof fn search_without_match_says_so(term: Seq<char>, answers: Answers)
    requires
        (answers.search)(term) == Ok::<Option<TrackView>, GatewayErrorView>(None),
    ensures
        outcome(first_step(CommandView::QueueBySearchTerm(term)), answers) == Some(
            ResponseView::PlainText(no_match_text(term)),
        ),
        queued_by(first_step(CommandView::QueueBySearchTerm(term)), answers) is None,
{
    let first = first_step(CommandView::QueueBySearchTerm(term));
    assert(outcome(first, answers) == outcome(next_step(first, answers), answers));
    assert(queued_by(first, answers) == queued_by(next_step(first, answers), answers));
}

/// A track that cannot be fetched is answered by the report of the failure,
/// and nothing is queued.
pub proof fn failed_fetch_is_reported(id: Seq<char>, answers: Answers, failure: GatewayErrorView)
    requires
        (answers.track)(id) == Err::<TrackView, GatewayErrorView>(failure),
    ensures
        outcome(StepView::FetchTrack { id }, answers) == Some(error_response(failure)),
        queued_by(StepView::FetchTrack { id }, answers) is None,
{
    let first = StepView::FetchTrack { id };
    assert(outcome(first, answers) == outcome(next_step(first, answers), answers));
    assert(queued_by(first, answers) == queued_by(next_step(first, answers), answers));
}

/// A track that is fetched and queued is answered by the confirmation that
/// shows it.
pub proof fn queued_track_is_confirmed(id: Seq<char>, answers: Answers, found: TrackView)
    requires
        (answers.track)(id) == Ok::<TrackView, GatewayErrorView>(found),
        found.id is Some,
        (answers.enqueue)(found) == Ok::<(), GatewayErrorView>(()),
    ensures
        outcome(StepView::FetchTrack { id }, answers) == Some(
            ResponseView::PlainText(queued_text(found)),
        ),
        queued_by(StepView::FetchTrack { id }, answers) == Some(found),
{
    let first = StepView::FetchTrack { id };
    let second = next_step(first, answers);
    assert(outcome(second, answers) == outcome(next_step(second, answers), answers));
    assert(queued_by(first, answers) == queued_by(second, answers));
}

} // verus!
