use queuebot::dispatch::{on_room_message, Content, Membership};
use queuebot::handlers::{
    fetch_track, get_queue_handler, get_track_handler, is_settled, queue_track,
    search_track_handler, start, track_queued, Step,
};
use queuebot::memory::{advance, handle, MemoryGateway};
use queuebot::model::{Command, GatewayError, QueueEntry, Response, Track};
use queuebot::router::classify;

fn song(id: Option<&str>, artists: &[&str], name: &str) -> Track {
    Track {
        id: id.map(|id| id.to_string()),
        name: name.to_string(),
        artists: artists.iter().map(|a| a.to_string()).collect(),
    }
}

fn one_more_time() -> Track {
    song(Some("0DiWol3AO6WpXZgp0goxAV"), &["Daft Punk"], "One More Time")
}

fn catalog() -> Vec<Track> {
    vec![one_more_time(), song(None, &["Nobody"], "Unlisted"), song(Some("abc123"), &["A", "B"], "Song")]
}

fn plain(text: &str) -> Response {
    Response::PlainText(text.to_string())
}

fn not_found_404() -> GatewayError {
    GatewayError::RemoteHttpError { status: 404, body: "not found".to_string() }
}

fn no_identifier() -> Response {
    plain("Attempted to queue track without ID")
}

#[test]
fn showing_the_queue_starts_by_fetching_it() {
    assert_eq!(start(Command::ShowQueue), Step::FetchQueue);
}

#[test]
fn queueing_by_identifier_starts_by_fetching_the_track() {
    assert_eq!(
        start(Command::QueueByIdentifier("abc123".to_string())),
        Step::FetchTrack { id: "abc123".to_string() }
    );
}

#[test]
fn a_uri_is_fetched_by_its_bare_identifier() {
    assert_eq!(
        start(Command::QueueByIdentifier("spotify:track:abc123".to_string())),
        Step::FetchTrack { id: "abc123".to_string() }
    );
}

#[test]
fn a_malformed_identifier_is_reported_and_not_searched() {
    assert_eq!(
        start(Command::QueueByIdentifier("abc/def ghi".to_string())),
        Step::Respond(plain("Invalid track identifier"))
    );
    assert_eq!(
        start(classify("!q https://open.spotify.com/track/abc123/extra")),
        Step::Respond(plain("Invalid track identifier"))
    );
}

#[test]
fn queueing_by_search_term_starts_by_searching_for_one_result() {
    assert_eq!(
        start(Command::QueueBySearchTerm("daft punk".to_string())),
        Step::Search { term: "daft punk".to_string(), limit: 1 }
    );
}

#[test]
fn ignore_starts_nothing() {
    assert_eq!(start(Command::Ignore), Step::Nothing);
}

#[test]
fn a_checked_identifier_is_fetched() {
    assert_eq!(fetch_track(Ok("abc".to_string())), Step::FetchTrack { id: "abc".to_string() });
    assert_eq!(
        fetch_track(Err(GatewayError::InvalidIdentifier)),
        Step::Respond(plain("Invalid track identifier"))
    );
}

#[test]
fn a_listed_queue_is_formatted() {
    let entries = vec![QueueEntry::Track(one_more_time()), QueueEntry::Other("Some Podcast".to_string())];
    assert_eq!(
        get_queue_handler(Ok(entries)),
        Response::FormattedBlock("Daft Punk - One More Time\nSome Podcast".to_string())
    );
}

#[test]
fn a_failure_to_list_the_queue_is_reported() {
    assert_eq!(
        get_queue_handler(Err(GatewayError::RemoteOtherError { message: "timed out".to_string() })),
        plain("timed out")
    );
    assert_eq!(
        get_queue_handler(Err(not_found_404())),
        Response::FormattedBlock("404\nnot found".to_string())
    );
}

#[test]
fn a_fetched_track_is_queued_next() {
    assert_eq!(get_track_handler(Ok(one_more_time())), Step::Enqueue { track: one_more_time() });
}

#[test]
fn a_fetched_track_without_identifier_is_reported() {
    assert_eq!(
        get_track_handler(Ok(song(None, &["Nobody"], "Unlisted"))),
        Step::Respond(no_identifier())
    );
    assert_eq!(queue_track(song(None, &[], "x")), Step::Respond(no_identifier()));
}

#[test]
fn a_failed_fetch_with_http_404_is_a_block_with_status_and_body() {
    let step = get_track_handler(Err(not_found_404()));
    match &step {
        Step::Respond(Response::FormattedBlock(body)) => {
            assert!(body.contains("404"));
            assert!(body.contains("not found"));
        }
        other => panic!("unexpected step {:?}", other),
    }
    assert_eq!(step, Step::Respond(Response::FormattedBlock("404\nnot found".to_string())));
}

#[test]
fn a_search_without_results_says_so() {
    assert_eq!(
        search_track_handler("nonexistent-track-zzz", Ok(None)),
        Step::Respond(plain("No tracks found matching: \"nonexistent-track-zzz\""))
    );
}

#[test]
fn a_search_result_is_queued_next() {
    assert_eq!(
        search_track_handler("one more", Ok(Some(one_more_time()))),
        Step::Enqueue { track: one_more_time() }
    );
}

#[test]
fn a_search_result_without_identifier_is_reported() {
    assert_eq!(
        search_track_handler("x", Ok(Some(song(None, &["Nobody"], "Unlisted")))),
        Step::Respond(no_identifier())
    );
}

#[test]
fn a_failed_search_is_reported() {
    assert_eq!(
        search_track_handler("x", Err(GatewayError::RemoteHttpError { status: 429, body: "slow down".to_string() })),
        Step::Respond(Response::FormattedBlock("429\nslow down".to_string()))
    );
}

#[test]
fn a_queued_track_is_confirmed() {
    assert_eq!(
        track_queued(&song(Some("abc123"), &["A", "B"], "Song"), Ok(())),
        plain("Queued: A, B - Song")
    );
}

#[test]
fn a_failure_to_queue_is_reported() {
    assert_eq!(
        track_queued(&one_more_time(), Err(GatewayError::RemoteHttpError { status: 403, body: "Premium required".to_string() })),
        Response::FormattedBlock("403\nPremium required".to_string())
    );
    assert_eq!(track_queued(&one_more_time(), Err(GatewayError::NotFound)), plain("No tracks found"));
}

#[test]
fn responses_and_nothing_are_settled() {
    assert!(is_settled(&Step::Nothing));
    assert!(is_settled(&Step::Respond(plain("x"))));
    assert!(!is_settled(&Step::FetchQueue));
    assert!(!is_settled(&Step::FetchTrack { id: "a".to_string() }));
    assert!(!is_settled(&Step::Search { term: "a".to_string(), limit: 1 }));
    assert!(!is_settled(&Step::Enqueue { track: one_more_time() }));
}

#[test]
fn advancing_performs_one_step() {
    let mut gateway = MemoryGateway::new(catalog());
    let step = advance(&mut gateway, Step::FetchTrack { id: "abc123".to_string() });
    assert_eq!(step, Step::Enqueue { track: catalog().remove(2) });
    assert_eq!(gateway.queue, Vec::new());
    let step = advance(&mut gateway, step);
    assert_eq!(step, Step::Respond(plain("Queued: A, B - Song")));
    assert_eq!(gateway.queue, vec![QueueEntry::Track(catalog().remove(2))]);
    let step = advance(&mut gateway, step);
    assert_eq!(step, Step::Respond(plain("Queued: A, B - Song")));
    assert_eq!(advance(&mut gateway, Step::Nothing), Step::Nothing);
    assert_eq!(gateway.queue.len(), 1);
}

#[test]
fn a_link_is_handled_from_message_to_confirmation() {
    let mut gateway = MemoryGateway::new(catalog());
    let command = classify("!q https://open.spotify.com/track/abc123?si=xyz");
    assert_eq!(handle(&mut gateway, command), Some(plain("Queued: A, B - Song")));
    assert_eq!(
        handle(&mut gateway, classify("!q")),
        Some(Response::FormattedBlock("A, B - Song".to_string()))
    );
}

#[test]
fn a_search_is_handled_from_message_to_confirmation() {
    let mut gateway = MemoryGateway::new(catalog());
    assert_eq!(
        handle(&mut gateway, classify("!q One More Time")),
        Some(plain("Queued: Daft Punk - One More Time"))
    );
    assert_eq!(gateway.queue, vec![QueueEntry::Track(one_more_time())]);
}

#[test]
fn a_search_without_match_changes_nothing() {
    let mut gateway = MemoryGateway::new(catalog());
    assert_eq!(
        handle(&mut gateway, classify("!q nonexistent-track-zzz")),
        Some(plain("No tracks found matching: \"nonexistent-track-zzz\""))
    );
    assert_eq!(gateway.queue, Vec::new());
}

#[test]
fn an_unknown_identifier_is_reported() {
    let mut gateway = MemoryGateway::new(catalog());
    assert_eq!(
        handle(&mut gateway, Command::QueueByIdentifier("zzz".to_string())),
        Some(plain("No tracks found"))
    );
}

#[test]
fn a_match_without_identifier_is_not_queued() {
    let mut gateway = MemoryGateway::new(catalog());
    assert_eq!(handle(&mut gateway, classify("!q Unlisted")), Some(no_identifier()));
    assert_eq!(gateway.queue, Vec::new());
}

#[test]
fn every_command_but_ignore_is_answered_once() {
    let commands = || {
        vec![
            Command::ShowQueue,
            Command::QueueByIdentifier("abc123".to_string()),
            Command::QueueByIdentifier("not valid".to_string()),
            Command::QueueByIdentifier("unknown".to_string()),
            Command::QueueBySearchTerm("Song".to_string()),
            Command::QueueBySearchTerm("nothing like it".to_string()),
            Command::QueueBySearchTerm(String::new()),
        ]
    };
    for command in commands() {
        let mut gateway = MemoryGateway::new(catalog());
        assert!(handle(&mut gateway, command).is_some());
    }
    let mut gateway = MemoryGateway::new(catalog());
    assert_eq!(handle(&mut gateway, Command::Ignore), None);
    assert_eq!(gateway.queue, Vec::new());
}

#[test]
fn only_text_in_a_joined_room_is_a_command() {
    let text = Content::Text("!q".to_string());
    assert_eq!(on_room_message(Membership::Joined, &text), Step::FetchQueue);
    assert_eq!(on_room_message(Membership::Invited, &text), Step::Nothing);
    assert_eq!(on_room_message(Membership::Left, &text), Step::Nothing);
    assert_eq!(on_room_message(Membership::Joined, &Content::Other), Step::Nothing);
}

#[test]
fn a_message_is_classified_and_started() {
    let message = |body: &str| on_room_message(Membership::Joined, &Content::Text(body.to_string()));
    assert_eq!(message("hello"), Step::Nothing);
    assert_eq!(message("!q "), Step::Nothing);
    assert_eq!(
        message("!q daft punk one more time"),
        Step::Search { term: "daft punk one more time".to_string(), limit: 1 }
    );
    assert_eq!(
        message("!q https://open.spotify.com/track/abc123?si=xyz"),
        Step::FetchTrack { id: "abc123".to_string() }
    );
}
