//! Reading: the tracks of an owner, the bytes of a file by name or by demo
//! identifier, and the record behind a demo identifier.

use crate::protocol::{
    fail, failed, Action, ActionView, Event, EventView, Failure, Reply, ReplyView, StoreStage,
};
use crate::track::{info_of, infos, infos_of};
use vstd::prelude::*;
use vstd::string::StringExecFns;

verus! {

/// Why a record is looked up by its demo identifier.
#[derive(Debug, Clone, Copy, PartialEq, Eq, Structural)]
pub enum Lookup {
    /// To stream its file.
    Stream,
    /// To show the record itself.
    Details,
}

/// State of a read request: what its last action asked for.
#[derive(Debug, PartialEq, Eq)]
pub enum Retrieval {
    /// The records of an owner.
    Listing,
    /// The record with a demo identifier.
    Finding { purpose: Lookup },
    /// Whether the file is there.
    Probing { file_path: String },
    /// The content of the file.
    Reading,
    /// Nothing: the request was answered.
    Closed,
}

/// Mathematical value of a [`Retrieval`].
pub enum RetrievalView {
    Listing,
    Finding { purpose: Lookup },
    Probing { file_path: Seq<char> },
    Reading,
    Closed,
}

impl View for Retrieval {
    type V = RetrievalView;

    open spec fn view(&self) -> RetrievalView {
        match self {
            Retrieval::Listing => RetrievalView::Listing,
            Retrieval::Finding { purpose } => RetrievalView::Finding { purpose: *purpose },
            Retrieval::Probing { file_path } => RetrievalView::Probing { file_path: file_path@ },
            Retrieval::Reading => RetrievalView::Reading,
            Retrieval::Closed => RetrievalView::Closed,
        }
    }
}

/// How a failure of the store is told to the caller of a read request.
pub open spec fn query_fault(stage: StoreStage) -> Seq<char> {
    match stage {
        StoreStage::Lock => "Failed to lock database"@,
        StoreStage::Prepare => "Failed to prepare SQL statement"@,
        StoreStage::Execute => "Failed to query tracks"@,
    }
}

/// Listing the tracks of `user_id`; without an owner the request is refused.
pub open spec fn list_open(user_id: Option<Seq<char>>) -> (RetrievalView, ActionView) {
    match user_id {
        Some(user_id) => (RetrievalView::Listing, ActionView::SelectByUser { user_id }),
        None => (
            RetrievalView::Closed,
            failed(Failure::ClientInput, "Missing user_id in headers"@),
        ),
    }
}

/// Streaming the file named `file_path`. The store is not consulted.
pub open spec fn stream_audio_open(file_path: Seq<char>) -> (RetrievalView, ActionView) {
    (RetrievalView::Probing { file_path }, ActionView::CheckFile { file_path })
}

/// Looking up the record with `demo_id`, to stream its file or to show it.
pub open spec fn find_open(demo_id: Seq<char>, purpose: Lookup) -> (RetrievalView, ActionView) {
    (RetrievalView::Finding { purpose }, ActionView::SelectByDemo { demo_id })
}

/// The read request is over with a failure.
pub open spec fn retrieval_abort(failure: Failure, message: Seq<char>) -> (
    RetrievalView,
    ActionView,
) {
    (RetrievalView::Closed, failed(failure, message))
}

/// The answer that carries the bytes of an audio file.
pub open spec fn audio_reply(bytes: Seq<u8>) -> ReplyView {
    ReplyView::Audio { media_type: "audio/mpeg"@, bytes }
}

/// One step of a read request: the state after `e` and what to do next.
///
/// - The records of an owner are answered as they came, each by its public
///   face.
/// - A demo identifier without a record is not found. With a record, its
///   public face is the answer, or its file is streamed.
/// - A file is streamed if it is in the upload directory, and not found
///   otherwise.
/// - A failure of the store is a server error.
pub open spec fn retrieval_step(s: RetrievalView, e: EventView) -> (RetrievalView, ActionView) {
    match s {
        RetrievalView::Listing => match e {
            EventView::Rows { tracks } => (
                RetrievalView::Closed,
                ActionView::Respond { reply: ReplyView::Tracks { tracks: infos_of(tracks) } },
            ),
            EventView::StoreFailed { stage, .. } => retrieval_abort(
                Failure::Store,
                query_fault(stage),
            ),
            _ => retrieval_abort(Failure::Protocol, "Unexpected event"@),
        },
        RetrievalView::Finding { purpose } => match e {
            EventView::Row { track: Some(track) } => match purpose {
                Lookup::Stream => stream_audio_open(track.file_path),
                Lookup::Details => (
                    RetrievalView::Closed,
                    ActionView::Respond { reply: ReplyView::Details { track: info_of(track) } },
                ),
            },
            EventView::Row { track: None } => retrieval_abort(
                Failure::NotFound,
                "Demo not found"@,
            ),
            EventView::StoreFailed { stage, .. } => retrieval_abort(
                Failure::Store,
                query_fault(stage),
            ),
            _ => retrieval_abort(Failure::Protocol, "Unexpected event"@),
        },
        RetrievalView::Probing { file_path } => match e {
            EventView::FileExists { exists } => if exists {
                (RetrievalView::Reading, ActionView::ReadFile { file_path })
            } else {
                retrieval_abort(Failure::NotFound, "File not found"@)
            },
            _ => retrieval_abort(Failure::Protocol, "Unexpected event"@),
        },
        RetrievalView::Reading => match e {
            EventView::FileRead { bytes } => (
                RetrievalView::Closed,
                ActionView::Respond { reply: audio_reply(bytes) },
            ),
            _ => retrieval_abort(Failure::Protocol, "Unexpected event"@),
        },
        RetrievalView::Closed => retrieval_abort(Failure::Protocol, "Unexpected event"@),
    }
}

fn abort(failure: Failure, message: &str) -> (next: (Retrieval, Action))
    ensures
        (next.0@, next.1@) == retrieval_abort(failure, message@),
{
    (Retrieval::Closed, fail(failure, String::from_str(message)))
}

fn stray() -> (next: (Retrieval, Action))
    ensures
        (next.0@, next.1@) == retrieval_abort(Failure::Protocol, "Unexpected event"@),
{
    abort(Failure::Protocol, "Unexpected event")
}

fn store_fault(stage: StoreStage) -> (next: (Retrieval, Action))
    ensures
        (next.0@, next.1@) == retrieval_abort(Failure::Store, query_fault(stage)),
{
    match stage {
        StoreStage::Lock => abort(Failure::Store, "Failed to lock database"),
        StoreStage::Prepare => abort(Failure::Store, "Failed to prepare SQL statement"),
        StoreStage::Execute => abort(Failure::Store, "Failed to query tracks"),
    }
}

impl Retrieval {
    /// Lists the tracks of an owner. `user_id` is the owner as the request
    /// named it, if it named one.
    pub fn list_tracks(user_id: Option<String>) -> (start: (Retrieval, Action))
        ensures
            (start.0@, start.1@) == list_open(user_id.deep_view()),
    {
        match user_id {
            Some(user_id) => (Retrieval::Listing, Action::SelectByUser { user_id }),
            None => abort(Failure::ClientInput, "Missing user_id in headers"),
        }
    }

    /// Streams a file by its name.
    pub fn stream_audio(file_path: String) -> (start: (Retrieval, Action))
        ensures
            (start.0@, start.1@) == stream_audio_open(file_path@),
    {
        let probed = file_path.clone();
        (Retrieval::Probing { file_path }, Action::CheckFile { file_path: probed })
    }

    /// Streams the file of the record with this demo identifier.
    pub fn stream_demo(demo_id: String) -> (start: (Retrieval, Action))
        ensures
            (start.0@, start.1@) == find_open(demo_id@, Lookup::Stream),
    {
        (Retrieval::Finding { purpose: Lookup::Stream }, Action::SelectByDemo { demo_id })
    }

    /// Shows the record with this demo identifier.
    pub fn get_demo_details(demo_id: String) -> (start: (Retrieval, Action))
        ensures
            (start.0@, start.1@) == find_open(demo_id@, Lookup::Details),
    {
        (Retrieval::Finding { purpose: Lookup::Details }, Action::SelectByDemo { demo_id })
    }

    /// Takes what the host reports and says what to do next.
    pub fn step(self, event: Event) -> (next: (Retrieval, Action))
        ensures
            (next.0@, next.1@) == retrieval_step(self@, event@),
    {
        match self {
            Retrieval::Listing => match event {
                Event::Rows { tracks } => {
                    let list = infos(&tracks);
                    (Retrieval::Closed, Action::Respond { reply: Reply::Tracks { tracks: list } })
                },
                Event::StoreFailed { stage, detail: _ } => store_fault(stage),
                _ => stray(),
            },
            Retrieval::Finding { purpose } => match event {
                Event::Row { track: Some(track) } => match purpose {
                    Lookup::Stream => Retrieval::stream_audio(track.file_path),
                    Lookup::Details => (
                        Retrieval::Closed,
                        Action::Respond { reply: Reply::Details { track: track.info() } },
                    ),
                },
                Event::Row { track: None } => abort(Failure::NotFound, "Demo not found"),
                Event::StoreFailed { stage, detail: _ } => store_fault(stage),
                _ => stray(),
            },
            Retrieval::Probing { file_path } => match event {
                Event::FileExists { exists } => if exists {
                    (Retrieval::Reading, Action::ReadFile { file_path })
                } else {
                    abort(Failure::NotFound, "File not found")
                },
                _ => stray(),
            },
            Retrieval::Reading => match event {
                Event::FileRead { bytes } => (
                    Retrieval::Closed,
                    Action::Respond {
                        reply: Reply::Audio { media_type: String::from_str("audio/mpeg"), bytes },
                    },
                ),
                _ => stray(),
            },
            Retrieval::Closed => stray(),
        }
    }
}

} // verus!
