//! The upload pipeline: consuming a multipart body part by part, streaming
//! the file part to disk chunk by chunk, and recording the track once the
//! body is exhausted.

use crate::naming::{
    audio_url, derive_file_name, file_url, is_canonical_id, is_tame, stored_name,
};
use crate::protocol::{
    fail, failed, Action, ActionView, Event, EventView, Failure, Reply, ReplyView, StoreStage,
    UploadResponse, UploadResponseView,
};
use crate::track::{Metadata, MetadataView, Track, TrackView};
use vstd::prelude::*;
use vstd::string::StringExecFns;

verus! {

/// A scalar field of an upload.
#[derive(Debug, Clone, Copy, PartialEq, Eq, Structural)]
pub enum Field {
    UserId,
    Artist,
    Title,
}

/// Where an upload stands: what its last action asked for.
#[derive(Debug, Clone, Copy, PartialEq, Eq, Structural)]
pub enum IngestPhase {
    /// The upload directory is being created.
    Preparing,
    /// The next part was asked for.
    BetweenParts,
    /// A chunk of a scalar field was asked for.
    ReadingField { field: Field },
    /// The file is being created.
    Creating,
    /// A chunk of the file part was asked for.
    ReadingFile,
    /// A chunk is being written.
    Writing,
    /// The record is being inserted.
    Recording,
    /// The request was answered.
    Closed,
}

/// State of one upload.
#[derive(Debug, PartialEq, Eq)]
pub struct Ingest {
    /// The identifier minted for this upload.
    pub demo_id: String,
    /// The scalar fields as far as they are known: what the request carried
    /// beside the body, replaced by each completed field of the body.
    pub metadata: Metadata,
    /// Name of the file of this upload; empty until a file part begins.
    pub file_path: String,
    /// Whether a file part was written to its end.
    pub stored: bool,
    /// What was read so far of the field being read.
    pub buffer: String,
    /// What the upload waits for.
    pub phase: IngestPhase,
}

/// Mathematical value of an [`Ingest`].
pub struct IngestView {
    pub demo_id: Seq<char>,
    pub metadata: MetadataView,
    pub file_path: Seq<char>,
    pub stored: bool,
    pub buffer: Seq<char>,
    pub phase: IngestPhase,
}

impl View for Ingest {
    type V = IngestView;

    open spec fn view(&self) -> IngestView {
        IngestView {
            demo_id: self.demo_id@,
            metadata: self.metadata@,
            file_path: self.file_path@,
            stored: self.stored,
            buffer: self.buffer@,
            phase: self.phase,
        }
    }
}

/// Name of the part that carries the owner.
pub open spec fn user_id_name() -> Seq<char> {
    "user_id"@
}

/// Name of the part that carries the artist.
pub open spec fn artist_name() -> Seq<char> {
    "artist"@
}

/// Name of the part that carries the title.
pub open spec fn title_name() -> Seq<char> {
    "title"@
}

/// Name of the part that carries the file.
pub open spec fn file_field_name() -> Seq<char> {
    "file"@
}

/// The scalar field that a part of this name carries, if it is one.
pub open spec fn field_named(name: Seq<char>) -> Option<Field> {
    if name == user_id_name() {
        Some(Field::UserId)
    } else if name == artist_name() {
        Some(Field::Artist)
    } else if name == title_name() {
        Some(Field::Title)
    } else {
        None
    }
}

/// The metadata with one field replaced.
pub open spec fn with_field(m: MetadataView, field: Field, value: Seq<char>) -> MetadataView {
    match field {
        Field::UserId => MetadataView { user_id: value, ..m },
        Field::Artist => MetadataView { artist: value, ..m },
        Field::Title => MetadataView { title: value, ..m },
    }
}

/// The record of an upload in this state.
pub open spec fn record_of(s: IngestView) -> TrackView {
    TrackView {
        artist: s.metadata.artist,
        title: s.metadata.title,
        file_path: s.file_path,
        demo_id: s.demo_id,
        user_id: s.metadata.user_id,
    }
}

/// The answer to an upload that is stored and recorded.
pub open spec fn receipt_of(s: IngestView) -> ReplyView {
    ReplyView::Uploaded {
        receipt: UploadResponseView {
            message: "File uploaded successfully"@,
            demo_id: s.demo_id,
            file_url: audio_url(s.file_path),
        },
    }
}

/// The state an upload starts in.
pub open spec fn ingest_start(demo_id: Seq<char>, metadata: MetadataView) -> IngestView {
    IngestView {
        demo_id,
        metadata,
        file_path: Seq::empty(),
        stored: false,
        buffer: Seq::empty(),
        phase: IngestPhase::Preparing,
    }
}

/// The upload is over with a failure.
pub open spec fn ingest_abort(s: IngestView, failure: Failure, message: Seq<char>) -> (
    IngestView,
    ActionView,
) {
    (IngestView { phase: IngestPhase::Closed, ..s }, failed(failure, message))
}

/// The upload is over because the host reported what was not asked for.
pub open spec fn ingest_stray(s: IngestView) -> (IngestView, ActionView) {
    ingest_abort(s, Failure::Protocol, "Unexpected event"@)
}

/// What follows the begin of a part named `name`.
pub open spec fn ingest_part(s: IngestView, name: Seq<char>) -> (IngestView, ActionView) {
    match field_named(name) {
        Some(field) => (
            IngestView {
                buffer: Seq::empty(),
                phase: IngestPhase::ReadingField { field },
                ..s
            },
            ActionView::NextText,
        ),
        None => if name == file_field_name() && !s.stored {
            let file_path = stored_name(s.metadata.title, s.demo_id);
            (
                IngestView { file_path, phase: IngestPhase::Creating, ..s },
                ActionView::CreateFile { file_path },
            )
        } else {
            (s, ActionView::NextPart)
        },
    }
}

/// What follows the end of the body.
pub open spec fn ingest_finish(s: IngestView) -> (IngestView, ActionView) {
    if s.stored {
        (
            IngestView { phase: IngestPhase::Recording, ..s },
            ActionView::InsertRow { track: record_of(s) },
        )
    } else {
        ingest_abort(s, Failure::ClientInput, "File upload failed"@)
    }
}

/// One step of an upload: the state after `e` and what to do next.
///
/// - The directory is created first; then the parts are taken in turn.
/// - A part named `user_id`, `artist` or `title` is read as text. Its chunks
///   are joined, and when the part ends the joined text replaces the field.
/// - The first part named `file` is the file. Its name is derived from the
///   title as known when the part begins. The file is created, and each
///   chunk is written before the next one is asked for.
/// - Any other part, and any further part named `file`, is passed over.
/// - When the body ends, the record is inserted if a file was written to
///   its end; otherwise the request is refused.
/// - A failure of the directory, the file, a file chunk or the store ends
///   the upload with a server error. Nothing already written is undone.
pub open spec fn ingest_step(s: IngestView, e: EventView) -> (IngestView, ActionView) {
    match s.phase {
        IngestPhase::Preparing => match e {
            EventView::DirReady => (
                IngestView { phase: IngestPhase::BetweenParts, ..s },
                ActionView::NextPart,
            ),
            EventView::IoFailed { detail } => ingest_abort(
                s,
                Failure::Io,
                "Failed to create upload directory: "@ + detail,
            ),
            _ => ingest_stray(s),
        },
        IngestPhase::BetweenParts => match e {
            EventView::PartBegin { name } => ingest_part(s, name),
            EventView::StreamEnd => ingest_finish(s),
            _ => ingest_stray(s),
        },
        IngestPhase::ReadingField { field } => match e {
            EventView::Text { text } => (
                IngestView { buffer: s.buffer + text, ..s },
                ActionView::NextText,
            ),
            EventView::PartEnd => (
                IngestView {
                    metadata: with_field(s.metadata, field, s.buffer),
                    buffer: Seq::empty(),
                    phase: IngestPhase::BetweenParts,
                    ..s
                },
                ActionView::NextPart,
            ),
            _ => ingest_stray(s),
        },
        IngestPhase::Creating => match e {
            EventView::FileCreated => (
                IngestView { phase: IngestPhase::ReadingFile, ..s },
                ActionView::NextBytes,
            ),
            EventView::IoFailed { detail } => ingest_abort(
                s,
                Failure::Io,
                "Failed to create file: "@ + detail,
            ),
            _ => ingest_stray(s),
        },
        IngestPhase::ReadingFile => match e {
            EventView::Bytes { bytes } => (
                IngestView { phase: IngestPhase::Writing, ..s },
                ActionView::AppendFile { file_path: s.file_path, bytes },
            ),
            EventView::PartEnd => (
                IngestView { stored: true, phase: IngestPhase::BetweenParts, ..s },
                ActionView::NextPart,
            ),
            EventView::IoFailed { detail } => ingest_abort(
                s,
                Failure::Io,
                "Error reading file chunk: "@ + detail,
            ),
            _ => ingest_stray(s),
        },
        IngestPhase::Writing => match e {
            EventView::ChunkWritten => (
                IngestView { phase: IngestPhase::ReadingFile, ..s },
                ActionView::NextBytes,
            ),
            EventView::IoFailed { detail } => ingest_abort(
                s,
                Failure::Io,
                "Error writing file: "@ + detail,
            ),
            _ => ingest_stray(s),
        },
        IngestPhase::Recording => match e {
            EventView::RowInserted => (
                IngestView { phase: IngestPhase::Closed, ..s },
                ActionView::Respond { reply: receipt_of(s) },
            ),
            EventView::StoreFailed { stage, detail } => ingest_abort(
                s,
                Failure::Store,
                if stage == StoreStage::Lock {
                    "Failed to lock database: "@ + detail
                } else {
                    "Failed to insert track into database: "@ + detail
                },
            ),
            _ => ingest_stray(s),
        },
        IngestPhase::Closed => ingest_stray(s),
    }
}

/// Whether the action, if it creates a file, names it without any hostile
/// character: the file then lies directly inside the upload directory.
pub open spec fn creates_tame(a: ActionView) -> bool {
    a matches ActionView::CreateFile { file_path } ==> is_tame(file_path)
}

/// Whether `name` reads the same as `literal`.
fn is_named(name: &String, literal: &str) -> (same: bool)
    ensures
        same == (name@ == literal@),
{
    *name == String::from_str(literal)
}

/// `prefix` followed by `detail`.
fn explain(prefix: &str, detail: &String) -> (message: String)
    ensures
        message@ == prefix@ + detail@,
{
    String::from_str(prefix).concat(detail.as_str())
}

impl Ingest {
    /// An upload with identifier `demo_id`, and what to do first. `metadata`
    /// holds the scalar fields that came with the request beside its body.
    pub fn begin(demo_id: String, metadata: Metadata) -> (start: (Ingest, Action))
        ensures
            start.0@ == ingest_start(demo_id@, metadata@),
            start.1@ == ActionView::EnsureDir,
    {
        let ingest = Ingest {
            demo_id,
            metadata,
            file_path: String::new(),
            stored: false,
            buffer: String::new(),
            phase: IngestPhase::Preparing,
        };
        (ingest, Action::EnsureDir)
    }

    /// Whether the request was answered.
    pub fn is_closed(&self) -> (closed: bool)
        ensures
            closed == (self@.phase == IngestPhase::Closed),
    {
        match self.phase {
            IngestPhase::Closed => true,
            _ => false,
        }
    }

    fn abort(self, failure: Failure, message: String) -> (next: (Ingest, Action))
        ensures
            (next.0@, next.1@) == ingest_abort(self@, failure, message@),
    {
        let mut s = self;
        s.phase = IngestPhase::Closed;
        (s, fail(failure, message))
    }

    fn stray(self) -> (next: (Ingest, Action))
        ensures
            (next.0@, next.1@) == ingest_stray(self@),
    {
        self.abort(Failure::Protocol, String::from_str("Unexpected event"))
    }

    fn read_field(self, field: Field) -> (next: (Ingest, Action))
        ensures
            next.0@ == (IngestView {
                buffer: Seq::empty(),
                phase: IngestPhase::ReadingField { field },
                ..self@
            }),
            next.1@ == ActionView::NextText,
    {
        let mut s = self;
        s.buffer = String::new();
        s.phase = IngestPhase::ReadingField { field };
        (s, Action::NextText)
    }

    fn part(self, name: String) -> (next: (Ingest, Action))
        ensures
            (next.0@, next.1@) == ingest_part(self@, name@),
            is_canonical_id(self@.demo_id) ==> creates_tame(next.1@),
    {
        if is_named(&name, "user_id") {
            self.read_field(Field::UserId)
        } else if is_named(&name, "artist") {
            self.read_field(Field::Artist)
        } else if is_named(&name, "title") {
            self.read_field(Field::Title)
        } else if is_named(&name, "file") && !self.stored {
            let mut s = self;
            let file_path = derive_file_name(s.metadata.title.as_str(), s.demo_id.as_str());
            s.file_path = file_path.clone();
            s.phase = IngestPhase::Creating;
            (s, Action::CreateFile { file_path })
        } else {
            (self, Action::NextPart)
        }
    }

    fn finish(self) -> (next: (Ingest, Action))
        ensures
            (next.0@, next.1@) == ingest_finish(self@),
    {
        if self.stored {
            let track = Track {
                artist: self.metadata.artist.clone(),
                title: self.metadata.title.clone(),
                file_path: self.file_path.clone(),
                demo_id: self.demo_id.clone(),
                user_id: self.metadata.user_id.clone(),
            };
            let mut s = self;
            s.phase = IngestPhase::Recording;
            (s, Action::InsertRow { track })
        } else {
            self.abort(Failure::ClientInput, String::from_str("File upload failed"))
        }
    }

    fn end_field(self, field: Field) -> (next: (Ingest, Action))
        ensures
            next.0@ == (IngestView {
                metadata: with_field(self@.metadata, field, self@.buffer),
                buffer: Seq::empty(),
                phase: IngestPhase::BetweenParts,
                ..self@
            }),
            next.1@ == ActionView::NextPart,
    {
        let Ingest { demo_id, metadata, file_path, stored, buffer, phase: _ } = self;
        let Metadata { user_id, artist, title } = metadata;
        let metadata = match field {
            Field::UserId => Metadata { user_id: buffer, artist, title },
            Field::Artist => Metadata { user_id, artist: buffer, title },
            Field::Title => Metadata { user_id, artist, title: buffer },
        };
        let s = Ingest {
            demo_id,
            metadata,
            file_path,
            stored,
            buffer: String::new(),
            phase: IngestPhase::BetweenParts,
        };
        (s, Action::NextPart)
    }

    fn receipt(&self) -> (reply: Reply)
        ensures
            reply@ == receipt_of(self@),
    {
        Reply::Uploaded {
            receipt: UploadResponse {
                message: String::from_str("File uploaded successfully"),
                demo_id: self.demo_id.clone(),
                file_url: file_url(self.file_path.as_str()),
            },
        }
    }

    /// Takes what the host reports and says what to do next.
    pub fn step(self, event: Event) -> (next: (Ingest, Action))
        ensures
            (next.0@, next.1@) == ingest_step(self@, event@),
            is_canonical_id(self@.demo_id) ==> creates_tame(next.1@),
    {
        match self.phase {
            IngestPhase::Preparing => match event {
                Event::DirReady => {
                    let mut s = self;
                    s.phase = IngestPhase::BetweenParts;
                    (s, Action::NextPart)
                },
                Event::IoFailed { detail } => {
                    let message = explain("Failed to create upload directory: ", &detail);
                    self.abort(Failure::Io, message)
                },
                _ => self.stray(),
            },
            IngestPhase::BetweenParts => match event {
                Event::PartBegin { name } => self.part(name),
                Event::StreamEnd => self.finish(),
                _ => self.stray(),
            },
            IngestPhase::ReadingField { field } => match event {
                Event::Text { text } => {
                    let mut s = self;
                    s.buffer.append(text.as_str());
                    (s, Action::NextText)
                },
                Event::PartEnd => self.end_field(field),
                _ => self.stray(),
            },
            IngestPhase::Creating => match event {
                Event::FileCreated => {
                    let mut s = self;
                    s.phase = IngestPhase::ReadingFile;
                    (s, Action::NextBytes)
                },
                Event::IoFailed { detail } => {
                    let message = explain("Failed to create file: ", &detail);
                    self.abort(Failure::Io, message)
                },
                _ => self.stray(),
            },
            IngestPhase::ReadingFile => match event {
                Event::Bytes { bytes } => {
                    let file_path = self.file_path.clone();
                    let mut s = self;
                    s.phase = IngestPhase::Writing;
                    (s, Action::AppendFile { file_path, bytes })
                },
                Event::PartEnd => {
                    let mut s = self;
                    s.stored = true;
                    s.phase = IngestPhase::BetweenParts;
                    (s, Action::NextPart)
                },
                Event::IoFailed { detail } => {
                    let message = explain("Error reading file chunk: ", &detail);
                    self.abort(Failure::Io, message)
                },
                _ => self.stray(),
            },
            IngestPhase::Writing => match event {
                Event::ChunkWritten => {
                    let mut s = self;
                    s.phase = IngestPhase::ReadingFile;
                    (s, Action::NextBytes)
                },
                Event::IoFailed { detail } => {
                    let message = explain("Error writing file: ", &detail);
                    self.abort(Failure::Io, message)
                },
                _ => self.stray(),
            },
            IngestPhase::Recording => match event {
                Event::RowInserted => {
                    let reply = self.receipt();
                    let mut s = self;
                    s.phase = IngestPhase::Closed;
                    (s, Action::Respond { reply })
                },
                Event::StoreFailed { stage, detail } => {
                    let message = match stage {
                        StoreStage::Lock => explain("Failed to lock database: ", &detail),
                        _ => explain("Failed to insert track into database: ", &detail),
                    };
                    self.abort(Failure::Store, message)
                },
                _ => self.stray(),
            },
            IngestPhase::Closed => self.stray(),
        }
    }
}

} // verus!
