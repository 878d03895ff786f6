use audio_backend::lifecycle::Removal;
use audio_backend::protocol::{Action, Event, Failure, Reply, StoreStage};

fn failure(failure: Failure, message: &str) -> Action {
    Action::Respond { reply: Reply::Failed { failure, message: message.to_string() } }
}

fn probing(file_path: &str) -> Removal {
    let (state, action) = Removal::delete_audio(file_path.to_string());
    assert_eq!(state, Removal::Probing { file_path: file_path.to_string() });
    assert_eq!(action, Action::CheckFile { file_path: file_path.to_string() });
    state
}

#[test]
fn deleting_probes_the_file_first() {
    probing("Song-1.mp3");
    probing("");
}

#[test]
fn deleting_a_missing_file_is_not_found_and_leaves_the_store_alone() {
    let (state, action) = probing("nope.mp3").step(Event::FileExists { exists: false });
    assert_eq!(state, Removal::Closed);
    assert_eq!(action, failure(Failure::NotFound, "File not found"));
}

#[test]
fn the_file_goes_before_its_records() {
    let (state, action) = probing("Song-1.mp3").step(Event::FileExists { exists: true });
    assert_eq!(state, Removal::Removing { file_path: "Song-1.mp3".to_string() });
    assert_eq!(action, Action::RemoveFile { file_path: "Song-1.mp3".to_string() });

    let (state, action) = state.step(Event::FileRemoved);
    assert_eq!(state, Removal::Purging);
    assert_eq!(action, Action::DeleteByPath { file_path: "Song-1.mp3".to_string() });

    let (state, action) = state.step(Event::RowsDeleted);
    assert_eq!(state, Removal::Closed);
    assert_eq!(
        action,
        Action::Respond {
            reply: Reply::Deleted { message: "File and record deleted successfully".to_string() },
        }
    );
}

#[test]
fn a_file_that_cannot_be_deleted_keeps_its_records() {
    let (state, _) = probing("Song-1.mp3").step(Event::FileExists { exists: true });
    let (state, action) = state.step(Event::IoFailed { detail: "busy".to_string() });
    assert_eq!(state, Removal::Closed);
    assert_eq!(action, failure(Failure::Io, "Failed to delete file"));
}

#[test]
fn store_failures_on_delete_are_server_errors() {
    let cases: Vec<(StoreStage, &str)> = vec![
        (StoreStage::Lock, "Failed to lock database"),
        (StoreStage::Prepare, "Failed to delete track from database"),
        (StoreStage::Execute, "Failed to delete track from database"),
    ];
    for (stage, message) in cases {
        let (state, _) = probing("Song-1.mp3").step(Event::FileExists { exists: true });
        let (state, _) = state.step(Event::FileRemoved);
        let (state, action) = state.step(Event::StoreFailed { stage, detail: "x".to_string() });
        assert_eq!(state, Removal::Closed);
        assert_eq!(action, failure(Failure::Store, message));
    }
}

#[test]
fn an_event_out_of_turn_ends_the_delete() {
    let stray: Action = failure(Failure::Protocol, "Unexpected event");

    let (state, action) = probing("x").step(Event::FileRemoved);
    assert_eq!(state, Removal::Closed);
    assert_eq!(action, stray);

    let (state, _) = probing("x").step(Event::FileExists { exists: true });
    let (_, action) = state.step(Event::RowsDeleted);
    assert_eq!(action, stray);

    let (state, _) = probing("x").step(Event::FileExists { exists: true });
    let (state, _) = state.step(Event::FileRemoved);
    let (_, action) = state.step(Event::IoFailed { detail: String::new() });
    assert_eq!(action, stray);

    let (state, action) = Removal::Closed.step(Event::RowsDeleted);
    assert_eq!(state, Removal::Closed);
    assert_eq!(action, stray);
}
