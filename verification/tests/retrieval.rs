use audio_backend::protocol::{Action, Event, Failure, Reply, StoreStage};
use audio_backend::retrieval::{Lookup, Retrieval};
use audio_backend::track::{infos, Track, TrackInfo};

fn failure(failure: Failure, message: &str) -> Action {
    Action::Respond { reply: Reply::Failed { failure, message: message.to_string() } }
}

fn track(artist: &str, title: &str, file_path: &str, demo_id: &str, user_id: &str) -> Track {
    Track {
        artist: artist.to_string(),
        title: title.to_string(),
        file_path: file_path.to_string(),
        demo_id: demo_id.to_string(),
        user_id: user_id.to_string(),
    }
}

fn info(artist: &str, title: &str, file_url: &str, demo_id: &str) -> TrackInfo {
    TrackInfo {
        artist: artist.to_string(),
        title: title.to_string(),
        file_url: file_url.to_string(),
        demo_id: demo_id.to_string(),
    }
}

#[test]
fn info_shows_a_url_and_hides_the_owner() {
    let t: Track = track("Jane", "Song", "Song-1.mp3", "1", "u1");
    assert_eq!(t.info(), info("Jane", "Song", "/audio/Song-1.mp3", "1"));
}

#[test]
fn infos_keep_the_order() {
    let rows: Vec<Track> = vec![
        track("A", "one", "one-1.mp3", "1", "u"),
        track("B", "two", "two-2.mp3", "2", "u"),
        track("A", "one", "one-3.mp3", "3", "u"),
    ];
    assert_eq!(
        infos(&rows),
        vec![
            info("A", "one", "/audio/one-1.mp3", "1"),
            info("B", "two", "/audio/two-2.mp3", "2"),
            info("A", "one", "/audio/one-3.mp3", "3"),
        ]
    );
    assert_eq!(infos(&Vec::new()), Vec::<TrackInfo>::new());
}

#[test]
fn listing_asks_for_the_rows_of_the_owner() {
    let (state, action) = Retrieval::list_tracks(Some("u1".to_string()));
    assert_eq!(state, Retrieval::Listing);
    assert_eq!(action, Action::SelectByUser { user_id: "u1".to_string() });

    let (state, action) = Retrieval::list_tracks(Some(String::new()));
    assert_eq!(state, Retrieval::Listing);
    assert_eq!(action, Action::SelectByUser { user_id: String::new() });
}

#[test]
fn listing_without_owner_is_refused() {
    let (state, action) = Retrieval::list_tracks(None);
    assert_eq!(state, Retrieval::Closed);
    assert_eq!(action, failure(Failure::ClientInput, "Missing user_id in headers"));
}

#[test]
fn listing_answers_with_the_rows_as_they_came() {
    let (state, _) = Retrieval::list_tracks(Some("u1".to_string()));
    let (state, action) = state.step(Event::Rows {
        tracks: vec![track("Jane", "Song", "Song-1.mp3", "1", "u1")],
    });
    assert_eq!(state, Retrieval::Closed);
    assert_eq!(
        action,
        Action::Respond {
            reply: Reply::Tracks { tracks: vec![info("Jane", "Song", "/audio/Song-1.mp3", "1")] },
        }
    );

    let (state, _) = Retrieval::list_tracks(Some("nobody".to_string()));
    let (_, action) = state.step(Event::Rows { tracks: Vec::new() });
    assert_eq!(action, Action::Respond { reply: Reply::Tracks { tracks: Vec::new() } });
}

#[test]
fn store_failures_on_listing_are_server_errors() {
    let cases: Vec<(StoreStage, &str)> = vec![
        (StoreStage::Lock, "Failed to lock database"),
        (StoreStage::Prepare, "Failed to prepare SQL statement"),
        (StoreStage::Execute, "Failed to query tracks"),
    ];
    for (stage, message) in cases {
        let (state, _) = Retrieval::list_tracks(Some("u1".to_string()));
        let (state, action) =
            state.step(Event::StoreFailed { stage, detail: "whatever".to_string() });
        assert_eq!(state, Retrieval::Closed);
        assert_eq!(action, failure(Failure::Store, message));
    }
}

#[test]
fn streaming_by_name_probes_then_reads() {
    let (state, action) = Retrieval::stream_audio("Song-1.mp3".to_string());
    assert_eq!(state, Retrieval::Probing { file_path: "Song-1.mp3".to_string() });
    assert_eq!(action, Action::CheckFile { file_path: "Song-1.mp3".to_string() });

    let (state, action) = state.step(Event::FileExists { exists: true });
    assert_eq!(state, Retrieval::Reading);
    assert_eq!(action, Action::ReadFile { file_path: "Song-1.mp3".to_string() });

    let (state, action) = state.step(Event::FileRead { bytes: b"ID3...".to_vec() });
    assert_eq!(state, Retrieval::Closed);
    assert_eq!(
        action,
        Action::Respond {
            reply: Reply::Audio { media_type: "audio/mpeg".to_string(), bytes: b"ID3...".to_vec() },
        }
    );
}

#[test]
fn streaming_a_missing_file_is_not_found() {
    let (state, _) = Retrieval::stream_audio("nope.mp3".to_string());
    let (state, action) = state.step(Event::FileExists { exists: false });
    assert_eq!(state, Retrieval::Closed);
    assert_eq!(action, failure(Failure::NotFound, "File not found"));
    assert_eq!(Failure::NotFound.status(), 404);
}

#[test]
fn streaming_by_demo_looks_the_record_up_first() {
    let (state, action) = Retrieval::stream_demo("d1".to_string());
    assert_eq!(state, Retrieval::Finding { purpose: Lookup::Stream });
    assert_eq!(action, Action::SelectByDemo { demo_id: "d1".to_string() });

    let (state, action) = state.step(Event::Row {
        track: Some(track("Jane", "Song", "Song-d1.mp3", "d1", "u1")),
    });
    assert_eq!(state, Retrieval::Probing { file_path: "Song-d1.mp3".to_string() });
    assert_eq!(action, Action::CheckFile { file_path: "Song-d1.mp3".to_string() });

    let (state, action) = state.step(Event::FileExists { exists: true });
    assert_eq!(action, Action::ReadFile { file_path: "Song-d1.mp3".to_string() });
    let (_, action) = state.step(Event::FileRead { bytes: Vec::new() });
    assert_eq!(
        action,
        Action::Respond {
            reply: Reply::Audio { media_type: "audio/mpeg".to_string(), bytes: Vec::new() },
        }
    );
}

#[test]
fn streaming_an_unknown_demo_is_not_found() {
    let (state, _) = Retrieval::stream_demo("d1".to_string());
    let (state, action) = state.step(Event::Row { track: None });
    assert_eq!(state, Retrieval::Closed);
    assert_eq!(action, failure(Failure::NotFound, "Demo not found"));
}

#[test]
fn streaming_a_demo_whose_file_is_gone_is_not_found() {
    let (state, _) = Retrieval::stream_demo("d1".to_string());
    let (state, _) = state.step(Event::Row {
        track: Some(track("Jane", "Song", "Song-d1.mp3", "d1", "u1")),
    });
    let (state, action) = state.step(Event::FileExists { exists: false });
    assert_eq!(state, Retrieval::Closed);
    assert_eq!(action, failure(Failure::NotFound, "File not found"));
}

#[test]
fn details_answer_with_the_public_face() {
    let (state, action) = Retrieval::get_demo_details("d1".to_string());
    assert_eq!(state, Retrieval::Finding { purpose: Lookup::Details });
    assert_eq!(action, Action::SelectByDemo { demo_id: "d1".to_string() });

    let (state, action) = state.step(Event::Row {
        track: Some(track("Jane", "Song", "Song-d1.mp3", "d1", "u1")),
    });
    assert_eq!(state, Retrieval::Closed);
    assert_eq!(
        action,
        Action::Respond {
            reply: Reply::Details { track: info("Jane", "Song", "/audio/Song-d1.mp3", "d1") },
        }
    );
}

#[test]
fn details_of_an_unknown_demo_are_not_found() {
    let (state, _) = Retrieval::get_demo_details("d1".to_string());
    let (state, action) = state.step(Event::Row { track: None });
    assert_eq!(state, Retrieval::Closed);
    assert_eq!(action, failure(Failure::NotFound, "Demo not found"));
}

#[test]
fn store_failures_on_lookup_are_server_errors() {
    let cases: Vec<(StoreStage, &str)> = vec![
        (StoreStage::Lock, "Failed to lock database"),
        (StoreStage::Prepare, "Failed to prepare SQL statement"),
        (StoreStage::Execute, "Failed to query tracks"),
    ];
    for (stage, message) in cases {
        let (state, _) = Retrieval::stream_demo("d1".to_string());
        let (_, action) = state.step(Event::StoreFailed { stage, detail: String::new() });
        assert_eq!(action, failure(Failure::Store, message));

        let (state, _) = Retrieval::get_demo_details("d1".to_string());
        let (_, action) = state.step(Event::StoreFailed { stage, detail: String::new() });
        assert_eq!(action, failure(Failure::Store, message));
    }
}

#[test]
fn an_event_out_of_turn_ends_the_read() {
    let stray: Action = failure(Failure::Protocol, "Unexpected event");

    let (state, _) = Retrieval::list_tracks(Some("u".to_string()));
    let (state, action) = state.step(Event::Row { track: None });
    assert_eq!(state, Retrieval::Closed);
    assert_eq!(action, stray);

    let (state, _) = Retrieval::stream_audio("x".to_string());
    let (_, action) = state.step(Event::FileRead { bytes: Vec::new() });
    assert_eq!(action, stray);

    let (state, _) = Retrieval::stream_audio("x".to_string());
    let (state, _) = state.step(Event::FileExists { exists: true });
    let (_, action) = state.step(Event::IoFailed { detail: "gone".to_string() });
    assert_eq!(action, stray);

    let (state, _) = Retrieval::stream_demo("d".to_string());
    let (_, action) = state.step(Event::Rows { tracks: Vec::new() });
    assert_eq!(action, stray);

    let (_, action) = Retrieval::Closed.step(Event::FileExists { exists: true });
    assert_eq!(action, stray);
}
