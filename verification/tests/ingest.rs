use audio_backend::ingest::{Field, Ingest, IngestPhase};
use audio_backend::protocol::{Action, Event, Failure, Reply, StoreStage, UploadResponse};
use audio_backend::track::{Metadata, Track};

const ID: &str = "123e4567-e89b-42d3-a456-426614174000";

fn blank() -> Metadata {
    Metadata { user_id: String::new(), artist: String::new(), title: String::new() }
}

fn begin() -> Ingest {
    let (ingest, action) = Ingest::begin(ID.to_string(), blank());
    assert_eq!(action, Action::EnsureDir);
    ingest
}

/// Feeds the events in turn and hands back the state and the last action.
fn feed(ingest: Ingest, events: Vec<Event>) -> (Ingest, Action) {
    let mut state: Ingest = ingest;
    let mut last: Action = Action::EnsureDir;
    for event in events {
        let next = state.step(event);
        state = next.0;
        last = next.1;
    }
    (state, last)
}

/// An upload that has stored an empty file and waits for its record.
fn recording() -> Ingest {
    let events: Vec<Event> = vec![
        Event::DirReady,
        part("file"),
        Event::FileCreated,
        Event::PartEnd,
        Event::StreamEnd,
    ];
    let (state, action) = feed(begin(), events);
    assert!(matches!(action, Action::InsertRow { .. }));
    state
}

fn part(name: &str) -> Event {
    Event::PartBegin { name: name.to_string() }
}

fn text(chunk: &str) -> Event {
    Event::Text { text: chunk.to_string() }
}

fn bytes(chunk: &[u8]) -> Event {
    Event::Bytes { bytes: chunk.to_vec() }
}

fn failure(failure: Failure, message: &str) -> Action {
    Action::Respond { reply: Reply::Failed { failure, message: message.to_string() } }
}

#[test]
fn begin_asks_for_the_directory() {
    let (ingest, action) = Ingest::begin(
        ID.to_string(),
        Metadata { user_id: "u".to_string(), artist: "a".to_string(), title: "t".to_string() },
    );
    assert_eq!(action, Action::EnsureDir);
    assert_eq!(ingest.phase, IngestPhase::Preparing);
    assert_eq!(ingest.demo_id, ID);
    assert_eq!(ingest.metadata.user_id, "u");
    assert_eq!(ingest.metadata.artist, "a");
    assert_eq!(ingest.metadata.title, "t");
    assert_eq!(ingest.file_path, "");
    assert!(!ingest.stored);
    assert!(!ingest.is_closed());
}

#[test]
fn directory_failure_is_a_server_error() {
    let (state, action) =
        feed(begin(), vec![Event::IoFailed { detail: "Os { code: 13 }".to_string() }]);
    assert_eq!(
        action,
        failure(Failure::Io, "Failed to create upload directory: Os { code: 13 }")
    );
    assert!(state.is_closed());
    assert_eq!(Failure::Io.status(), 500);
}

#[test]
fn parts_are_asked_for_once_the_directory_is_there() {
    let (state, action) = feed(begin(), vec![Event::DirReady]);
    assert_eq!(action, Action::NextPart);
    assert_eq!(state.phase, IngestPhase::BetweenParts);
}

#[test]
fn a_scalar_field_joins_its_chunks() {
    let (state, action) = feed(
        begin(),
        vec![Event::DirReady, part("artist"), text("Ja"), text(""), text("ne")],
    );
    assert_eq!(action, Action::NextText);
    assert_eq!(state.phase, IngestPhase::ReadingField { field: Field::Artist });
    assert_eq!(state.buffer, "Jane");
    assert_eq!(state.metadata.artist, "");

    let (state, action) = feed(state, vec![Event::PartEnd]);
    assert_eq!(action, Action::NextPart);
    assert_eq!(state.phase, IngestPhase::BetweenParts);
    assert_eq!(state.metadata.artist, "Jane");
    assert_eq!(state.metadata.title, "");
    assert_eq!(state.metadata.user_id, "");
    assert_eq!(state.buffer, "");
}

#[test]
fn each_scalar_field_goes_to_its_place() {
    let (state, _) = feed(
        begin(),
        vec![
            Event::DirReady,
            part("user_id"),
            text("auth0|42"),
            Event::PartEnd,
            part("title"),
            text("Song"),
            Event::PartEnd,
            part("artist"),
            text("Jane"),
            Event::PartEnd,
        ],
    );
    assert_eq!(
        state.metadata,
        Metadata {
            user_id: "auth0|42".to_string(),
            artist: "Jane".to_string(),
            title: "Song".to_string(),
        }
    );
}

#[test]
fn the_last_complete_value_of_a_field_stands() {
    let (state, _) = feed(
        begin(),
        vec![
            Event::DirReady,
            part("title"),
            text("First"),
            Event::PartEnd,
            part("title"),
            text("Sec"),
            text("ond"),
            Event::PartEnd,
            part("title"),
            text("Third, cut off"),
        ],
    );
    assert_eq!(state.metadata.title, "Second");
}

#[test]
fn an_empty_field_replaces_what_came_with_the_request() {
    let (ingest, _) = Ingest::begin(
        ID.to_string(),
        Metadata { user_id: "u".to_string(), artist: "a".to_string(), title: "t".to_string() },
    );
    let (state, _) = feed(ingest, vec![Event::DirReady, part("artist"), Event::PartEnd]);
    assert_eq!(state.metadata.artist, "");
    assert_eq!(state.metadata.title, "t");
    assert_eq!(state.metadata.user_id, "u");
}

#[test]
fn an_unknown_part_is_passed_over() {
    let (state, action) = feed(begin(), vec![Event::DirReady, part("comment")]);
    assert_eq!(action, Action::NextPart);
    assert_eq!(state.phase, IngestPhase::BetweenParts);
    assert_eq!(state.metadata, blank());

    let (state, action) = feed(state, vec![part("File")]);
    assert_eq!(action, Action::NextPart);
    assert_eq!(state.phase, IngestPhase::BetweenParts);
}

#[test]
fn the_file_part_creates_the_file_under_the_derived_name() {
    let (state, action) = feed(
        begin(),
        vec![Event::DirReady, part("title"), text("My/Song"), Event::PartEnd, part("file")],
    );
    let name: String = format!("MySong-{}.mp3", ID);
    assert_eq!(action, Action::CreateFile { file_path: name.clone() });
    assert_eq!(state.phase, IngestPhase::Creating);
    assert_eq!(state.file_path, name);
    assert!(!state.stored);
}

#[test]
fn the_file_name_takes_the_title_known_when_the_file_begins() {
    let (state, action) = feed(begin(), vec![Event::DirReady, part("file")]);
    let name: String = format!("-{}.mp3", ID);
    assert_eq!(action, Action::CreateFile { file_path: name.clone() });

    let (state, action) = feed(
        state,
        vec![
            Event::FileCreated,
            Event::PartEnd,
            part("title"),
            text("Late"),
            Event::PartEnd,
            Event::StreamEnd,
        ],
    );
    assert_eq!(
        action,
        Action::InsertRow {
            track: Track {
                artist: String::new(),
                title: "Late".to_string(),
                file_path: name,
                demo_id: ID.to_string(),
                user_id: String::new(),
            },
        }
    );
    assert_eq!(state.phase, IngestPhase::Recording);
}

#[test]
fn file_creation_failure_is_a_server_error() {
    let (state, action) = feed(
        begin(),
        vec![Event::DirReady, part("file"), Event::IoFailed { detail: "denied".to_string() }],
    );
    assert_eq!(action, failure(Failure::Io, "Failed to create file: denied"));
    assert!(state.is_closed());
}

#[test]
fn each_chunk_is_written_before_the_next_is_read() {
    let (state, action) =
        feed(begin(), vec![Event::DirReady, part("file"), Event::FileCreated]);
    assert_eq!(action, Action::NextBytes);
    assert_eq!(state.phase, IngestPhase::ReadingFile);
    let name: String = format!("-{}.mp3", ID);

    let (state, action) = feed(state, vec![bytes(b"ID3")]);
    assert_eq!(action, Action::AppendFile { file_path: name.clone(), bytes: b"ID3".to_vec() });
    assert_eq!(state.phase, IngestPhase::Writing);

    let (state, action) = feed(state, vec![Event::ChunkWritten]);
    assert_eq!(action, Action::NextBytes);
    assert_eq!(state.phase, IngestPhase::ReadingFile);

    let (state, action) = feed(state, vec![bytes(&[0, 255, 7])]);
    assert_eq!(action, Action::AppendFile { file_path: name, bytes: vec![0, 255, 7] });

    let (state, action) = feed(state, vec![Event::ChunkWritten, Event::PartEnd]);
    assert_eq!(action, Action::NextPart);
    assert!(state.stored);
    assert_eq!(state.phase, IngestPhase::BetweenParts);
}

#[test]
fn chunk_read_failure_is_a_server_error() {
    let (state, action) = feed(
        begin(),
        vec![
            Event::DirReady,
            part("file"),
            Event::FileCreated,
            Event::IoFailed { detail: "Incomplete".to_string() },
        ],
    );
    assert_eq!(action, failure(Failure::Io, "Error reading file chunk: Incomplete"));
    assert!(state.is_closed());
    assert!(!state.stored);
}

#[test]
fn chunk_write_failure_is_a_server_error() {
    let (state, action) = feed(
        begin(),
        vec![
            Event::DirReady,
            part("file"),
            Event::FileCreated,
            bytes(b"abc"),
            Event::IoFailed { detail: "disk full".to_string() },
        ],
    );
    assert_eq!(action, failure(Failure::Io, "Error writing file: disk full"));
    assert!(state.is_closed());
}

#[test]
fn a_second_file_part_is_passed_over() {
    let (state, action) = feed(
        begin(),
        vec![
            Event::DirReady,
            part("title"),
            text("One"),
            Event::PartEnd,
            part("file"),
            Event::FileCreated,
            bytes(b"1"),
            Event::ChunkWritten,
            Event::PartEnd,
            part("title"),
            text("Two"),
            Event::PartEnd,
            part("file"),
        ],
    );
    assert_eq!(action, Action::NextPart);
    assert_eq!(state.phase, IngestPhase::BetweenParts);
    assert_eq!(state.file_path, format!("One-{}.mp3", ID));
    assert_eq!(state.metadata.title, "Two");
}

#[test]
fn the_end_of_the_body_records_the_upload() {
    let (state, action) = feed(
        begin(),
        vec![
            Event::DirReady,
            part("user_id"),
            text("u1"),
            Event::PartEnd,
            part("artist"),
            text("Jane"),
            Event::PartEnd,
            part("title"),
            text("Song"),
            Event::PartEnd,
            part("file"),
            Event::FileCreated,
            bytes(b"ID3"),
            Event::ChunkWritten,
            Event::PartEnd,
            Event::StreamEnd,
        ],
    );
    let name: String = format!("Song-{}.mp3", ID);
    assert_eq!(
        action,
        Action::InsertRow {
            track: Track {
                artist: "Jane".to_string(),
                title: "Song".to_string(),
                file_path: name.clone(),
                demo_id: ID.to_string(),
                user_id: "u1".to_string(),
            },
        }
    );

    let (state, action) = feed(state, vec![Event::RowInserted]);
    assert_eq!(
        action,
        Action::Respond {
            reply: Reply::Uploaded {
                receipt: UploadResponse {
                    message: "File uploaded successfully".to_string(),
                    demo_id: ID.to_string(),
                    file_url: format!("/audio/{}", name),
                },
            },
        }
    );
    assert!(state.is_closed());
}

#[test]
fn a_body_without_file_is_refused() {
    let (state, action) = feed(
        begin(),
        vec![Event::DirReady, part("title"), text("Song"), Event::PartEnd, Event::StreamEnd],
    );
    assert_eq!(action, failure(Failure::ClientInput, "File upload failed"));
    assert!(state.is_closed());
    assert_eq!(Failure::ClientInput.status(), 400);

    let (state, action) = feed(begin(), vec![Event::DirReady, Event::StreamEnd]);
    assert_eq!(action, failure(Failure::ClientInput, "File upload failed"));
    assert!(state.is_closed());
}

#[test]
fn store_failures_on_insert_are_server_errors() {
    let (state, action) = feed(
        recording(),
        vec![Event::StoreFailed { stage: StoreStage::Lock, detail: "poisoned".to_string() }],
    );
    assert_eq!(action, failure(Failure::Store, "Failed to lock database: poisoned"));
    assert!(state.is_closed());

    let (_, action) = feed(
        recording(),
        vec![Event::StoreFailed { stage: StoreStage::Execute, detail: "no table".to_string() }],
    );
    assert_eq!(
        action,
        failure(Failure::Store, "Failed to insert track into database: no table")
    );

    let (_, action) = feed(
        recording(),
        vec![Event::StoreFailed { stage: StoreStage::Prepare, detail: "syntax".to_string() }],
    );
    assert_eq!(
        action,
        failure(Failure::Store, "Failed to insert track into database: syntax")
    );
    assert_eq!(Failure::Store.status(), 500);
}

#[test]
fn an_event_out_of_turn_ends_the_upload() {
    let stray: Action = failure(Failure::Protocol, "Unexpected event");

    let (state, action) = feed(begin(), vec![Event::RowInserted]);
    assert_eq!(action, stray);
    assert!(state.is_closed());

    let (_, action) = feed(begin(), vec![Event::DirReady, Event::PartEnd]);
    assert_eq!(action, stray);

    let (_, action) = feed(begin(), vec![Event::DirReady, part("title"), bytes(b"x")]);
    assert_eq!(action, stray);

    let (_, action) = feed(begin(), vec![Event::DirReady, part("title"), Event::StreamEnd]);
    assert_eq!(action, stray);

    let (_, action) =
        feed(begin(), vec![Event::DirReady, part("file"), Event::FileCreated, text("x")]);
    assert_eq!(action, stray);

    let (_, action) = feed(
        begin(),
        vec![Event::DirReady, part("file"), Event::FileCreated, Event::StreamEnd],
    );
    assert_eq!(action, stray);

    assert_eq!(Failure::Protocol.status(), 500);
}

#[test]
fn a_closed_upload_stays_closed() {
    let (state, _) = feed(begin(), vec![Event::DirReady, Event::StreamEnd]);
    assert!(state.is_closed());
    let (state, action) = feed(state, vec![Event::DirReady]);
    assert_eq!(action, failure(Failure::Protocol, "Unexpected event"));
    assert!(state.is_closed());
    let (state, action) = feed(state, vec![Event::StreamEnd]);
    assert_eq!(action, failure(Failure::Protocol, "Unexpected event"));
    assert!(state.is_closed());
}

#[test]
fn a_failed_upload_undoes_nothing() {
    let (_, action) = feed(
        begin(),
        vec![
            Event::DirReady,
            part("file"),
            Event::FileCreated,
            bytes(b"abc"),
            Event::ChunkWritten,
            Event::IoFailed { detail: "reset".to_string() },
        ],
    );
    assert!(matches!(action, Action::Respond { .. }));
}
