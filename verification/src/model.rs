//! A host that never fails, as a mathematical object.
//!
//! The sessions of this crate decide; a host acts. To say what a whole
//! request comes to, this module describes the host the sessions are written
//! for: a table of records, a directory of files, and a request body, each
//! doing exactly what an [`Action`](crate::protocol::Action) asks. [`serve`]
//! runs a request against it from arrival to answer.

use crate::ingest::{field_named, file_field_name, with_field};
use crate::naming::{audio_url, stored_name};
use crate::protocol::{ActionView, EventView, Failure, ReplyView, UploadResponseView};
use crate::session::{session_open, session_step, RequestView, SessionView};
use crate::track::{MetadataView, TrackView};
use vstd::prelude::*;
use vstd::utf8::decode_utf8;

verus! {

/// One part of a multipart body: its field name and its content in the
/// chunks in which it arrives.
pub struct Part {
    pub name: Seq<char>,
    pub chunks: Seq<Seq<u8>>,
}

/// Everything a request can read or change.
#[verifier::ext_equal]
pub struct World {
    /// The records of the store, oldest first.
    pub rows: Seq<TrackView>,
    /// The files of the upload directory by name.
    pub files: Map<Seq<char>, Seq<u8>>,
    /// The parts of the request body that were not begun yet.
    pub body: Seq<Part>,
    /// The chunks of the current part that were not read yet.
    pub pending: Seq<Seq<u8>>,
}

/// The records of one owner, oldest first.
pub open spec fn rows_of_user(rows: Seq<TrackView>, user_id: Seq<char>) -> Seq<TrackView> {
    rows.filter(|t: TrackView| t.user_id == user_id)
}

/// The records with one demo identifier, oldest first.
pub open spec fn rows_of_demo(rows: Seq<TrackView>, demo_id: Seq<char>) -> Seq<TrackView> {
    rows.filter(|t: TrackView| t.demo_id == demo_id)
}

/// The records of all files but one, oldest first.
pub open spec fn rows_without_file(rows: Seq<TrackView>, file_path: Seq<char>) -> Seq<TrackView> {
    rows.filter(|t: TrackView| t.file_path != file_path)
}

/// The oldest record with this demo identifier, if there is one.
pub open spec fn row_of_demo(rows: Seq<TrackView>, demo_id: Seq<char>) -> Option<TrackView> {
    let found = rows_of_demo(rows, demo_id);
    if found.len() > 0 {
        Some(found[0])
    } else {
        None
    }
}

/// The content of a file, nothing if there is no such file.
pub open spec fn content_of(files: Map<Seq<char>, Seq<u8>>, file_path: Seq<char>) -> Seq<u8> {
    if files.dom().contains(file_path) {
        files[file_path]
    } else {
        Seq::empty()
    }
}

/// What the host does when asked for `a`, and what it reports.
pub open spec fn react(w: World, a: ActionView) -> (World, EventView) {
    match a {
        ActionView::EnsureDir => (w, EventView::DirReady),
        ActionView::NextPart => if w.body.len() > 0 {
            (
                World { body: w.body.drop_first(), pending: w.body[0].chunks, ..w },
                EventView::PartBegin { name: w.body[0].name },
            )
        } else {
            (World { pending: Seq::empty(), ..w }, EventView::StreamEnd)
        },
        ActionView::NextText => if w.pending.len() > 0 {
            (
                World { pending: w.pending.drop_first(), ..w },
                EventView::Text { text: decode_utf8(w.pending[0]) },
            )
        } else {
            (w, EventView::PartEnd)
        },
        ActionView::NextBytes => if w.pending.len() > 0 {
            (
                World { pending: w.pending.drop_first(), ..w },
                EventView::Bytes { bytes: w.pending[0] },
            )
        } else {
            (w, EventView::PartEnd)
        },
        ActionView::CreateFile { file_path } => (
            World { files: w.files.insert(file_path, Seq::empty()), ..w },
            EventView::FileCreated,
        ),
        ActionView::AppendFile { file_path, bytes } => (
            World {
                files: w.files.insert(file_path, content_of(w.files, file_path) + bytes),
                ..w
            },
            EventView::ChunkWritten,
        ),
        ActionView::CheckFile { file_path } => (
            w,
            EventView::FileExists { exists: w.files.dom().contains(file_path) },
        ),
        ActionView::ReadFile { file_path } => (
            w,
            EventView::FileRead { bytes: content_of(w.files, file_path) },
        ),
        ActionView::RemoveFile { file_path } => (
            World { files: w.files.remove(file_path), ..w },
            EventView::FileRemoved,
        ),
        ActionView::InsertRow { track } => (
            World { rows: w.rows.push(track), ..w },
            EventView::RowInserted,
        ),
        ActionView::SelectByUser { user_id } => (
            w,
            EventView::Rows { tracks: rows_of_user(w.rows, user_id) },
        ),
        ActionView::SelectByDemo { demo_id } => (
            w,
            EventView::Row { track: row_of_demo(w.rows, demo_id) },
        ),
        ActionView::DeleteByPath { file_path } => (
            World { rows: rows_without_file(w.rows, file_path), ..w },
            EventView::RowsDeleted,
        ),
        ActionView::Respond { .. } => (w, EventView::StreamEnd),
    }
}

/// How many actions can follow `a` at most before the body is read again or
/// the request is answered.
pub open spec fn rank(a: ActionView) -> nat {
    match a {
        ActionView::Respond { .. } => 0,
        ActionView::InsertRow { .. } => 1,
        ActionView::SelectByUser { .. } => 1,
        ActionView::DeleteByPath { .. } => 1,
        ActionView::NextPart => 2,
        ActionView::ReadFile { .. } => 2,
        ActionView::RemoveFile { .. } => 2,
        ActionView::NextText => 3,
        ActionView::NextBytes => 3,
        ActionView::CheckFile { .. } => 3,
        ActionView::CreateFile { .. } => 4,
        ActionView::AppendFile { .. } => 4,
        ActionView::SelectByDemo { .. } => 4,
        ActionView::EnsureDir => 5,
    }
}

/// The world and the answer once the session `s`, which has just asked for
/// `a`, is through.
pub open spec fn run(s: SessionView, a: ActionView, w: World) -> (World, ReplyView)
    decreases w.body.len(), w.pending.len(), rank(a),
{
    match a {
        ActionView::Respond { reply } => (w, reply),
        _ => {
            let (w, e) = react(w, a);
            let (s, a) = session_step(s, e);
            run(s, a, w)
        },
    }
}

/// The world after a request and the answer to it. `demo_id` is the
/// identifier minted for the request.
pub open spec fn serve(request: RequestView, demo_id: Seq<char>, w: World) -> (World, ReplyView) {
    let (s, a) = session_open(request, demo_id);
    run(s, a, w)
}

/// The chunks of a part read as bytes, end to end.
pub open spec fn joined(chunks: Seq<Seq<u8>>) -> Seq<u8>
    decreases chunks.len(),
{
    if chunks.len() == 0 {
        Seq::empty()
    } else {
        chunks[0] + joined(chunks.drop_first())
    }
}

/// The chunks of a part read as text, end to end.
pub open spec fn text_of(chunks: Seq<Seq<u8>>) -> Seq<char>
    decreases chunks.len(),
{
    if chunks.len() == 0 {
        Seq::empty()
    } else {
        decode_utf8(chunks[0]) + text_of(chunks.drop_first())
    }
}

/// The scalar fields after one more part: a part that carries a field
/// replaces it, any other part changes nothing.
pub open spec fn absorb(m: MetadataView, part: Part) -> MetadataView {
    match field_named(part.name) {
        Some(field) => with_field(m, field, text_of(part.chunks)),
        None => m,
    }
}

/// The scalar fields after all parts: of each field the last value stands.
pub open spec fn settle(m: MetadataView, parts: Seq<Part>) -> MetadataView
    decreases parts.len(),
{
    if parts.len() == 0 {
        m
    } else {
        settle(absorb(m, parts[0]), parts.drop_first())
    }
}

/// The file that a body stores, as name and content: its first part named
/// `file`, under the name derived from the title as it stands when that part
/// begins. `None` if no part is named `file`.
pub open spec fn stored_file(m: MetadataView, demo_id: Seq<char>, parts: Seq<Part>) -> Option<
    (Seq<char>, Seq<u8>),
>
    decreases parts.len(),
{
    if parts.len() == 0 {
        None
    } else if parts[0].name == file_field_name() {
        Some((stored_name(m.title, demo_id), joined(parts[0].chunks)))
    } else {
        stored_file(absorb(m, parts[0]), demo_id, parts.drop_first())
    }
}

/// The world with its request body read to the end.
pub open spec fn drained(w: World) -> World {
    World { body: Seq::empty(), pending: Seq::empty(), ..w }
}

/// The world and the answer after a file was stored under `file_path` and
/// recorded with the scalar fields `m`.
pub open spec fn committed(w: World, demo_id: Seq<char>, m: MetadataView, file_path: Seq<char>) -> (
    World,
    ReplyView,
) {
    let track = TrackView {
        artist: m.artist,
        title: m.title,
        file_path,
        demo_id,
        user_id: m.user_id,
    };
    let receipt = UploadResponseView {
        message: "File uploaded successfully"@,
        demo_id,
        file_url: audio_url(file_path),
    };
    (World { rows: w.rows.push(track), ..w }, ReplyView::Uploaded { receipt })
}

/// What an upload comes to. With a file part: the file holds the bytes of
/// that part, one record is added that carries the settled scalar fields,
/// and the answer names the demo identifier and the URL of the file.
/// Without one: the request is refused, and neither file nor record is made.
pub open spec fn upload_outcome(m: MetadataView, demo_id: Seq<char>, w: World) -> (
    World,
    ReplyView,
) {
    match stored_file(m, demo_id, w.body) {
        Some((file_path, content)) => committed(
            World { files: w.files.insert(file_path, content), ..drained(w) },
            demo_id,
            settle(m, w.body),
            file_path,
        ),
        None => (
            drained(w),
            ReplyView::Failed { failure: Failure::ClientInput, message: "File upload failed"@ },
        ),
    }
}

} // verus!
