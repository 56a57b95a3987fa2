use queuebot::gateway::{
    check_identifier, enqueue_target, first_match, MISSING_IDENTIFIER_TEXT, SEARCH_LIMIT,
};
use queuebot::memory::MemoryGateway;
use queuebot::model::{GatewayError, QueueEntry, Track};

fn song(id: Option<&str>, artists: &[&str], name: &str) -> Track {
    Track {
        id: id.map(|id| id.to_string()),
        name: name.to_string(),
        artists: artists.iter().map(|a| a.to_string()).collect(),
    }
}

fn catalog() -> Vec<Track> {
    vec![
        song(Some("0DiWol3AO6WpXZgp0goxAV"), &["Daft Punk"], "One More Time"),
        song(None, &["Nobody"], "Unlisted"),
        song(Some("5W3cjX2J3tjhG8zb6u0qHn"), &["Daft Punk"], "Harder, Better, Faster, Stronger"),
        song(Some("0DiWol3AO6WpXZgp0goxAV"), &["Someone Else"], "One More Time (Cover)"),
    ]
}

fn missing_identifier() -> GatewayError {
    GatewayError::RemoteOtherError { message: "Attempted to queue track without ID".to_string() }
}

#[test]
fn a_bare_identifier_is_well_formed() {
    assert_eq!(check_identifier("4iV5W9uYEdYUVa79Axb7Rh"), Ok("4iV5W9uYEdYUVa79Axb7Rh".to_string()));
    assert_eq!(check_identifier("abc123"), Ok("abc123".to_string()));
}

#[test]
fn a_track_uri_gives_its_identifier() {
    assert_eq!(check_identifier("spotify:track:abc123"), Ok("abc123".to_string()));
    assert_eq!(check_identifier("spotify/track/abc123"), Ok("abc123".to_string()));
}

#[test]
fn other_characters_make_an_identifier_invalid() {
    for id in ["abc-123", "abc 123", "abc/def", "abc?si=1", "\u{e9}t\u{e9}", "abc123\n"] {
        assert_eq!(check_identifier(id), Err(GatewayError::InvalidIdentifier), "{:?}", id);
    }
}

#[test]
fn a_uri_of_something_else_is_invalid() {
    for id in ["spotify:album:abc123", "spotify:track", "spotify:nothing:abc", "spotify:track:a-b"] {
        assert_eq!(check_identifier(id), Err(GatewayError::InvalidIdentifier), "{:?}", id);
    }
}

#[test]
fn a_search_asks_for_one_result() {
    assert_eq!(SEARCH_LIMIT, 1);
}

#[test]
fn the_best_match_is_the_first_result() {
    assert_eq!(first_match(Vec::new()), None);
    assert_eq!(first_match(vec![song(Some("a"), &["A"], "x")]), Some(song(Some("a"), &["A"], "x")));
    assert_eq!(
        first_match(vec![song(Some("a"), &["A"], "x"), song(Some("b"), &["B"], "y")]),
        Some(song(Some("a"), &["A"], "x"))
    );
}

#[test]
fn a_track_is_queued_under_its_identifier() {
    assert_eq!(enqueue_target(&song(Some("abc"), &["A"], "x")), Ok("abc".to_string()));
}

#[test]
fn a_track_without_identifier_cannot_be_queued() {
    assert_eq!(enqueue_target(&song(None, &["A"], "x")), Err(missing_identifier()));
    assert_eq!(MISSING_IDENTIFIER_TEXT, "Attempted to queue track without ID");
}

#[test]
fn a_new_gateway_has_an_empty_queue() {
    let gateway = MemoryGateway::new(catalog());
    assert_eq!(gateway.current_queue(), Ok(Vec::new()));
    assert_eq!(gateway.catalog, catalog());
}

#[test]
fn fetching_finds_the_first_track_with_the_identifier() {
    let gateway = MemoryGateway::new(catalog());
    assert_eq!(gateway.fetch_by_id("0DiWol3AO6WpXZgp0goxAV"), Ok(catalog().remove(0)));
    assert_eq!(gateway.fetch_by_id("spotify:track:5W3cjX2J3tjhG8zb6u0qHn"), Ok(catalog().remove(2)));
}

#[test]
fn fetching_an_unknown_identifier_finds_nothing() {
    let gateway = MemoryGateway::new(catalog());
    assert_eq!(gateway.fetch_by_id("unknown"), Err(GatewayError::NotFound));
    assert_eq!(MemoryGateway::new(Vec::new()).fetch_by_id("abc"), Err(GatewayError::NotFound));
}

#[test]
fn fetching_a_malformed_identifier_is_refused() {
    let gateway = MemoryGateway::new(catalog());
    assert_eq!(gateway.fetch_by_id("not an id"), Err(GatewayError::InvalidIdentifier));
    assert_eq!(gateway.fetch_by_id("spotify:album:0DiWol3AO6WpXZgp0goxAV"), Err(GatewayError::InvalidIdentifier));
}

#[test]
fn searching_finds_the_first_track_that_shows_the_term() {
    let gateway = MemoryGateway::new(catalog());
    assert_eq!(gateway.search("One More"), Ok(Some(catalog().remove(0))));
    assert_eq!(gateway.search("Daft Punk - Harder"), Ok(Some(catalog().remove(2))));
    assert_eq!(gateway.search("Cover"), Ok(Some(catalog().remove(3))));
    assert_eq!(gateway.search(""), Ok(Some(catalog().remove(0))));
}

#[test]
fn searching_for_what_no_track_shows_finds_nothing() {
    let gateway = MemoryGateway::new(catalog());
    assert_eq!(gateway.search("nonexistent-track-zzz"), Ok(None));
    assert_eq!(gateway.search("one more time"), Ok(None));
    assert_eq!(MemoryGateway::new(Vec::new()).search(""), Ok(None));
}

#[test]
fn queueing_appends_to_the_queue() {
    let mut gateway = MemoryGateway::new(catalog());
    assert_eq!(gateway.enqueue(&catalog()[2]), Ok(()));
    assert_eq!(gateway.enqueue(&catalog()[0]), Ok(()));
    assert_eq!(
        gateway.current_queue(),
        Ok(vec![QueueEntry::Track(catalog().remove(2)), QueueEntry::Track(catalog().remove(0))])
    );
    assert_eq!(gateway.catalog, catalog());
}

#[test]
fn queueing_a_track_without_identifier_changes_nothing() {
    let mut gateway = MemoryGateway::new(catalog());
    gateway.queue.push(QueueEntry::Other("Some Podcast".to_string()));
    assert_eq!(gateway.enqueue(&catalog()[1]), Err(missing_identifier()));
    assert_eq!(gateway.current_queue(), Ok(vec![QueueEntry::Other("Some Podcast".to_string())]));
}

#[test]
fn a_fetched_and_queued_track_is_listed_under_its_identifier() {
    for id in ["0DiWol3AO6WpXZgp0goxAV", "5W3cjX2J3tjhG8zb6u0qHn"] {
        let mut gateway = MemoryGateway::new(catalog());
        gateway.queue.push(QueueEntry::Other("Some Podcast".to_string()));
        let fetched = gateway.fetch_by_id(id).unwrap();
        assert_eq!(gateway.enqueue(&fetched), Ok(()));
        let listed = gateway.current_queue().unwrap();
        assert_eq!(listed.len(), 2);
        assert!(listed.iter().any(|entry| match entry {
            QueueEntry::Track(track) => track.id.as_deref() == Some(id),
            QueueEntry::Other(_) => false,
        }));
        assert_eq!(listed.last(), Some(&QueueEntry::Track(fetched)));
    }
}
