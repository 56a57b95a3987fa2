//! A gateway that lives in memory, and the handlers run against it from the
//! first step to the response.

use crate::formatted::{track, track_text};
use crate::gateway::{
    check_identifier, enqueue_result, enqueue_target, queue_result, queue_target, search_result,
    track_id_of, track_result,
};
use crate::handlers::{
    every_command_is_answered, first_step, get_queue_handler, get_track_handler, is_settled,
    next_step, outcome, queued_by, rank, search_track_handler, settled, start, track_queued,
    Answers, Step, StepView,
};
use crate::model::{
    Command, GatewayError, GatewayErrorView, QueueEntry, QueueEntryView, Response, ResponseView,
    Track, TrackView,
};
use crate::text::{chars_of, contains, occurs_in};
use vstd::prelude::*;

verus! {

/// The first track of `catalog` that carries the identifier `id`.
pub open spec fn lookup(catalog: Seq<TrackView>, id: Seq<char>) -> Option<TrackView>
    decreases catalog.len(),
{
    if catalog.len() == 0 {
        None
    } else if catalog[0].id == Some(id) {
        Some(catalog[0])
    } else {
        lookup(catalog.drop_first(), id)
    }
}

/// The first track of `catalog` whose display string holds `term`.
pub open spec fn first_hit(catalog: Seq<TrackView>, term: Seq<char>) -> Option<TrackView>
    decreases catalog.len(),
{
    if catalog.len() == 0 {
        None
    } else if occurs_in(term, track_text(catalog[0])) {
        Some(catalog[0])
    } else {
        first_hit(catalog.drop_first(), term)
    }
}

/// What fetching by an identifier gives, `id` being what was read from it.
pub open spec fn fetched(catalog: Seq<TrackView>, id: Option<Seq<char>>) -> Result<
    TrackView,
    GatewayErrorView,
> {
    match id {
        None => Err(GatewayErrorView::InvalidIdentifier),
        Some(id) => match lookup(catalog, id) {
            Some(track) => Ok(track),
            None => Err(GatewayErrorView::NotFound),
        },
    }
}

/// The queue after `track` was added to it, or why it cannot be added.
pub open spec fn enqueued(queue: Seq<QueueEntryView>, track: TrackView) -> Result<
    Seq<QueueEntryView>,
    GatewayErrorView,
> {
    match queue_target(track) {
        Ok(_) => Ok(queue.push(QueueEntryView::Track(track))),
        Err(error) => Err(error),
    }
}

/// A gateway that lives in memory: a catalog to fetch and search in, and the
/// playback queue, front first.
#[derive(Debug)]
pub struct MemoryGateway {
    pub catalog: Vec<Track>,
    pub queue: Vec<QueueEntry>,
}

/// The state of a [`MemoryGateway`] as the contracts see it.
pub struct GatewayView {
    pub catalog: Seq<TrackView>,
    pub queue: Seq<QueueEntryView>,
}

impl View for MemoryGateway {
    type V = GatewayView;

    open spec fn view(&self) -> GatewayView {
        GatewayView { catalog: self.catalog.deep_view(), queue: self.queue.deep_view() }
    }
}

impl MemoryGateway {
    /// A gateway over `catalog`, with nothing queued.
    pub fn new(catalog: Vec<Track>) -> (gateway: Self)
        ensures
            gateway@.catalog == catalog.deep_view(),
            gateway@.queue == Seq::<QueueEntryView>::empty(),
    {
        let gateway = MemoryGateway { catalog, queue: Vec::new() };
        gateway
    }

    /// Fetches the track that `id` names: an error for an identifier that is
    /// not well formed, and for one that the catalog does not hold.
    pub fn fetch_by_id(&self, id: &str) -> (result: Result<Track, GatewayError>)
        ensures
            track_result(result) == fetched(self@.catalog, track_id_of(id@)),
    {
        let wanted = match check_identifier(id) {
            Ok(wanted) => wanted,
            Err(error) => {
                return Err(error);
            },
        };
        assert(self@.catalog.skip(0) =~= self@.catalog);
        let mut i: usize = 0;
        while i < self.catalog.len()
            invariant
                i <= self.catalog.len(),
                track_id_of(id@) == Some(wanted@),
                lookup(self@.catalog, wanted@) == lookup(self@.catalog.skip(i as int), wanted@),
            decreases self.catalog.len() - i,
        {
            assert(self@.catalog.skip(i as int).drop_first() =~= self@.catalog.skip(i as int + 1));
            let hit = match &self.catalog[i].id {
                Some(other) => *other == wanted,
                None => false,
            };
            if hit {
                return Ok(self.catalog[i].clone());
            }
            i = i + 1;
        }
        Err(GatewayError::NotFound)
    }

    /// Searches the catalog for `term` and gives the first track whose display
    /// string holds it, if there is one.
    pub fn search(&self, term: &str) -> (result: Result<Option<Track>, GatewayError>)
        ensures
            search_result(result) == Ok::<Option<TrackView>, GatewayErrorView>(
                first_hit(self@.catalog, term@),
            ),
    {
        let needle = chars_of(term);
        assert(self@.catalog.skip(0) =~= self@.catalog);
        let mut i: usize = 0;
        while i < self.catalog.len()
            invariant
                i <= self.catalog.len(),
                needle@ == term@,
                first_hit(self@.catalog, term@) == first_hit(self@.catalog.skip(i as int), term@),
            decreases self.catalog.len() - i,
        {
            assert(self@.catalog.skip(i as int).drop_first() =~= self@.catalog.skip(i as int + 1));
            let shown = track(&self.catalog[i]);
            let hay = chars_of(shown.as_str());
            if contains(&hay, &needle) {
                return Ok(Some(self.catalog[i].clone()));
            }
            i = i + 1;
        }
        Ok(None)
    }

    /// Adds `track` to the back of the queue; a track without an identifier is
    /// refused and the queue stays as it is.
    pub fn enqueue(&mut self, track: &Track) -> (result: Result<(), GatewayError>)
        ensures
            final(self)@.catalog == old(self)@.catalog,
            match enqueued(old(self)@.queue, track@) {
                Ok(queue) => result is Ok && final(self)@.queue == queue,
                Err(error) => enqueue_result(result) == Err::<(), GatewayErrorView>(error)
                    && final(self)@.queue == old(self)@.queue,
            },
    {
        match enqueue_target(track) {
            Ok(_) => {
                self.queue.push(QueueEntry::Track(track.clone()));
                Ok(())
            },
            Err(error) => Err(error),
        }
    }

    /// Lists the queue, front first.
    pub fn current_queue(&self) -> (result: Result<Vec<QueueEntry>, GatewayError>)
        ensures
            queue_result(result) == Ok::<Seq<QueueEntryView>, GatewayErrorView>(self@.queue),
    {
        let mut entries: Vec<QueueEntry> = Vec::new();
        let mut i: usize = 0;
        while i < self.queue.len()
            invariant
                i <= self.queue.len(),
                entries.len() == i,
                forall|k: int| 0 <= k < i ==> entries[k]@ == self.queue[k]@,
            decreases self.queue.len() - i,
        {
            entries.push(self.queue[i].clone());
            i = i + 1;
        }
        assert(entries.deep_view() =~= self.queue.deep_view());
        Ok(entries)
    }
}

/// A track that `lookup` finds carries the identifier it was looked up by.
pub proof fn lookup_finds_identifier(catalog: Seq<TrackView>, id: Seq<char>)
    ensures
        lookup(catalog, id) matches Some(track) ==> track.id == Some(id) && catalog.contains(track),
    decreases catalog.len(),
{
    if catalog.len() > 0 && catalog[0].id != Some(id) {
        lookup_finds_identifier(catalog.drop_first(), id);
    }
}

/// Fetch a track by an identifier, queue it, and the queue lists it: last,
/// and under the identifier that the gateway read from the one given.
pub proof fn queued_track_is_listed(
    gateway: GatewayView,
    id: Seq<char>,
    track: TrackView,
    queue: Seq<QueueEntryView>,
)
    requires
        fetched(gateway.catalog, track_id_of(id)) == Ok::<TrackView, GatewayErrorView>(track),
        enqueued(gateway.queue, track) == Ok::<Seq<QueueEntryView>, GatewayErrorView>(queue),
    ensures
        track.id == track_id_of(id),
        queue.len() == gateway.queue.len() + 1,
        queue.last() == QueueEntryView::Track(track),
        queue.contains(QueueEntryView::Track(track)),
{
    lookup_finds_identifier(gateway.catalog, track_id_of(id)->0);
}

/// What the in-memory gateway answers in the state `gateway`.
pub open spec fn answers_of(gateway: GatewayView) -> Answers {
    Answers {
        queue: Ok(gateway.queue),
        track: |id: Seq<char>| fetched(gateway.catalog, track_id_of(id)),
        search: |term: Seq<char>| Ok(first_hit(gateway.catalog, term)),
        enqueue: |track: TrackView|
            match enqueued(gateway.queue, track) {
                Ok(_) => Ok(()),
                Err(error) => Err(error),
            },
    }
}

/// The queue of the in-memory gateway after it has answered `step`.
pub open spec fn queue_after(gateway: GatewayView, step: StepView) -> Seq<QueueEntryView> {
    match step {
        StepView::Enqueue { track } => match enqueued(gateway.queue, track) {
            Ok(queue) => queue,
            Err(_) => gateway.queue,
        },
        _ => gateway.queue,
    }
}

/// Performs one step against the in-memory gateway and decides on the answer.
pub fn advance(gateway: &mut MemoryGateway, step: Step) -> (next: Step)
    ensures
        next@ == next_step(step@, answers_of(old(gateway)@)),
        final(gateway)@.catalog == old(gateway)@.catalog,
        final(gateway)@.queue == queue_after(old(gateway)@, step@),
        rank(next@) < rank(step@) || settled(step@),
{
    match step {
        Step::FetchQueue => Step::Respond(get_queue_handler(gateway.current_queue())),
        Step::FetchTrack { id } => get_track_handler(gateway.fetch_by_id(id.as_str())),
        Step::Search { term, .. } => {
            let answer = gateway.search(term.as_str());
            search_track_handler(term.as_str(), answer)
        },
        Step::Enqueue { track } => {
            let answer = gateway.enqueue(&track);
            Step::Respond(track_queued(&track, answer))
        },
        Step::Respond(response) => Step::Respond(response),
        Step::Nothing => Step::Nothing,
    }
}

/// Handles a command against the in-memory gateway, from its first step to
/// the response.
pub fn handle(gateway: &mut MemoryGateway, command: Command) -> (response: Option<Response>)
    ensures
        response_of(response) == outcome(first_step(command@), answers_of(old(gateway)@)),
        response is Some <==> !(command@ is Ignore),
        final(gateway)@.catalog == old(gateway)@.catalog,
        final(gateway)@.queue == match queued_by(
            first_step(command@),
            answers_of(old(gateway)@),
        ) {
            Some(track) => old(gateway)@.queue.push(QueueEntryView::Track(track)),
            None => old(gateway)@.queue,
        },
{
    let ghost answers = answers_of(gateway@);
    let ghost first = first_step(command@);
    proof {
        every_command_is_answered(command@, answers);
    }
    let mut step = start(command);
    while !is_settled(&step)
        invariant
            answers == answers_of(old(gateway)@),
            outcome(step@, answers) == outcome(first, answers),
            gateway@.catalog == old(gateway)@.catalog,
            settled(step@) ==> gateway@.queue == match queued_by(first, answers) {
                Some(track) => old(gateway)@.queue.push(QueueEntryView::Track(track)),
                None => old(gateway)@.queue,
            },
            !settled(step@) ==> gateway@ == old(gateway)@ && queued_by(step@, answers)
                == queued_by(first, answers),
            step@ matches StepView::Enqueue { track } ==> track.id is Some,
        decreases rank(step@),
    {
        step = advance(gateway, step);
    }
    match step {
        Step::Respond(response) => Some(response),
        _ => None,
    }
}

/// The view of an optional response.
pub open spec fn response_of(response: Option<Response>) -> Option<ResponseView> {
    match response {
        Some(response) => Some(response@),
        None => None,
    }
}

} // verus!
