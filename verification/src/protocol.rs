//! What a session asks of its host, what the host reports back, and what is
//! finally answered.

use crate::track::{Track, TrackInfo, TrackInfoView, TrackView};
use vstd::prelude::*;

verus! {

/// Why a request failed.
#[derive(Debug, Clone, Copy, PartialEq, Eq, Structural)]
pub enum Failure {
    /// A required field or header is missing, or the upload holds no file.
    ClientInput,
    /// No file of that name, or no record with that demo identifier.
    NotFound,
    /// The upload directory or a file in it could not be created, written
    /// or deleted.
    Io,
    /// The metadata store could not be reached, or a statement failed.
    Store,
    /// The host reported something the session had not asked for.
    Protocol,
}

impl Failure {
    /// The HTTP status code that reports this failure.
    pub open spec fn code(self) -> u16 {
        match self {
            Failure::ClientInput => 400,
            Failure::NotFound => 404,
            Failure::Io => 500,
            Failure::Store => 500,
            Failure::Protocol => 500,
        }
    }

    /// The HTTP status code that reports this failure.
    pub fn status(self) -> (code: u16)
        ensures
            code == self.code(),
    {
        match self {
            Failure::ClientInput => 400,
            Failure::NotFound => 404,
            Failure::Io => 500,
            Failure::Store => 500,
            Failure::Protocol => 500,
        }
    }
}

/// Where work on the metadata store failed.
#[derive(Debug, Clone, Copy, PartialEq, Eq, Structural)]
pub enum StoreStage {
    /// Exclusive access to the store could not be had.
    Lock,
    /// The statement could not be prepared.
    Prepare,
    /// The statement failed while it ran.
    Execute,
}

/// Body of the answer to a successful upload.
#[derive(Debug, PartialEq, Eq)]
pub struct UploadResponse {
    pub message: String,
    pub demo_id: String,
    pub file_url: String,
}

/// Mathematical value of an [`UploadResponse`].
pub struct UploadResponseView {
    pub message: Seq<char>,
    pub demo_id: Seq<char>,
    pub file_url: Seq<char>,
}

impl View for UploadResponse {
    type V = UploadResponseView;

    open spec fn view(&self) -> UploadResponseView {
        UploadResponseView {
            message: self.message@,
            demo_id: self.demo_id@,
            file_url: self.file_url@,
        }
    }
}

impl Clone for UploadResponse {
    fn clone(&self) -> (copy: UploadResponse)
        ensures
            copy@ == self@,
    {
        UploadResponse {
            message: self.message.clone(),
            demo_id: self.demo_id.clone(),
            file_url: self.file_url.clone(),
        }
    }
}

/// One response header.
#[derive(Debug, PartialEq, Eq)]
pub struct Header {
    pub name: String,
    pub value: String,
}

impl View for Header {
    type V = (Seq<char>, Seq<char>);

    open spec fn view(&self) -> (Seq<char>, Seq<char>) {
        (self.name@, self.value@)
    }
}

impl Clone for Header {
    fn clone(&self) -> (copy: Header)
        ensures
            copy@ == self@,
    {
        Header { name: self.name.clone(), value: self.value.clone() }
    }
}

impl DeepView for Header {
    type V = (Seq<char>, Seq<char>);

    open spec fn deep_view(&self) -> (Seq<char>, Seq<char>) {
        self@
    }
}

/// The answer to a request.
#[derive(Debug, PartialEq, Eq)]
pub enum Reply {
    /// The upload is stored and recorded.
    Uploaded { receipt: UploadResponse },
    /// The tracks of one owner.
    Tracks { tracks: Vec<TrackInfo> },
    /// The track behind a demo identifier.
    Details { track: TrackInfo },
    /// The bytes of a stored file, with their media type.
    Audio { media_type: String, bytes: Vec<u8> },
    /// A file and its records are gone.
    Deleted { message: String },
    /// The answer to a cross-origin pre-flight request.
    Preflight { headers: Vec<Header> },
    /// The request failed.
    Failed { failure: Failure, message: String },
}

/// Mathematical value of a [`Reply`].
pub enum ReplyView {
    Uploaded { receipt: UploadResponseView },
    Tracks { tracks: Seq<TrackInfoView> },
    Details { track: TrackInfoView },
    Audio { media_type: Seq<char>, bytes: Seq<u8> },
    Deleted { message: Seq<char> },
    Preflight { headers: Seq<(Seq<char>, Seq<char>)> },
    Failed { failure: Failure, message: Seq<char> },
}

impl View for Reply {
    type V = ReplyView;

    open spec fn view(&self) -> ReplyView {
        match self {
            Reply::Uploaded { receipt } => ReplyView::Uploaded { receipt: receipt@ },
            Reply::Tracks { tracks } => ReplyView::Tracks { tracks: tracks.deep_view() },
            Reply::Details { track } => ReplyView::Details { track: track@ },
            Reply::Audio { media_type, bytes } => ReplyView::Audio {
                media_type: media_type@,
                bytes: bytes@,
            },
            Reply::Deleted { message } => ReplyView::Deleted { message: message@ },
            Reply::Preflight { headers } => ReplyView::Preflight { headers: headers.deep_view() },
            Reply::Failed { failure, message } => ReplyView::Failed {
                failure: *failure,
                message: message@,
            },
        }
    }
}

impl ReplyView {
    /// The HTTP status code of the answer.
    pub open spec fn code(self) -> u16 {
        match self {
            ReplyView::Failed { failure, .. } => failure.code(),
            _ => 200,
        }
    }
}

impl Reply {
    /// The HTTP status code of the answer: 200 unless the request failed.
    pub fn status(&self) -> (code: u16)
        ensures
            code == self@.code(),
    {
        match self {
            Reply::Failed { failure, .. } => failure.status(),
            _ => 200,
        }
    }
}

/// What a session asks its host to do next.
#[derive(Debug, PartialEq, Eq)]
pub enum Action {
    /// Create the upload directory, with any missing parents, unless it
    /// exists.
    EnsureDir,
    /// Advance to the next part of the multipart body, dropping what is
    /// unread of the current one.
    NextPart,
    /// Read the next chunk of the current part as text.
    NextText,
    /// Read the next chunk of the current part as bytes.
    NextBytes,
    /// Create the file in the upload directory, empty.
    CreateFile { file_path: String },
    /// Write the bytes at the end of the file.
    AppendFile { file_path: String, bytes: Vec<u8> },
    /// Look whether the file is in the upload directory.
    CheckFile { file_path: String },
    /// Read the whole file.
    ReadFile { file_path: String },
    /// Delete the file.
    RemoveFile { file_path: String },
    /// Add one record to the store.
    InsertRow { track: Track },
    /// Fetch the records of one owner.
    SelectByUser { user_id: String },
    /// Fetch the first record with this demo identifier.
    SelectByDemo { demo_id: String },
    /// Delete every record of this file.
    DeleteByPath { file_path: String },
    /// Answer the request. The session is over.
    Respond { reply: Reply },
}

/// Mathematical value of an [`Action`].
pub enum ActionView {
    EnsureDir,
    NextPart,
    NextText,
    NextBytes,
    CreateFile { file_path: Seq<char> },
    AppendFile { file_path: Seq<char>, bytes: Seq<u8> },
    CheckFile { file_path: Seq<char> },
    ReadFile { file_path: Seq<char> },
    RemoveFile { file_path: Seq<char> },
    InsertRow { track: TrackView },
    SelectByUser { user_id: Seq<char> },
    SelectByDemo { demo_id: Seq<char> },
    DeleteByPath { file_path: Seq<char> },
    Respond { reply: ReplyView },
}

impl View for Action {
    type V = ActionView;

    open spec fn view(&self) -> ActionView {
        match self {
            Action::EnsureDir => ActionView::EnsureDir,
            Action::NextPart => ActionView::NextPart,
            Action::NextText => ActionView::NextText,
            Action::NextBytes => ActionView::NextBytes,
            Action::CreateFile { file_path } => ActionView::CreateFile { file_path: file_path@ },
            Action::AppendFile { file_path, bytes } => ActionView::AppendFile {
                file_path: file_path@,
                bytes: bytes@,
            },
            Action::CheckFile { file_path } => ActionView::CheckFile { file_path: file_path@ },
            Action::ReadFile { file_path } => ActionView::ReadFile { file_path: file_path@ },
            Action::RemoveFile { file_path } => ActionView::RemoveFile { file_path: file_path@ },
            Action::InsertRow { track } => ActionView::InsertRow { track: track@ },
            Action::SelectByUser { user_id } => ActionView::SelectByUser { user_id: user_id@ },
            Action::SelectByDemo { demo_id } => ActionView::SelectByDemo { demo_id: demo_id@ },
            Action::DeleteByPath { file_path } => ActionView::DeleteByPath {
                file_path: file_path@,
            },
            Action::Respond { reply } => ActionView::Respond { reply: reply@ },
        }
    }
}

/// What the host reports after carrying out an [`Action`].
#[derive(Debug, PartialEq, Eq)]
pub enum Event {
    /// The upload directory exists.
    DirReady,
    /// A part begins; `name` is its field name.
    PartBegin { name: String },
    /// The next chunk of the current part, as text.
    Text { text: String },
    /// The next chunk of the current part, as bytes.
    Bytes { bytes: Vec<u8> },
    /// The current part has no more chunks.
    PartEnd,
    /// The body has no more parts.
    StreamEnd,
    /// The file was created.
    FileCreated,
    /// The bytes were written.
    ChunkWritten,
    /// Whether the file is there.
    FileExists { exists: bool },
    /// The content of the file.
    FileRead { bytes: Vec<u8> },
    /// The file was deleted.
    FileRemoved,
    /// The record was added.
    RowInserted,
    /// The records asked for.
    Rows { tracks: Vec<Track> },
    /// The record asked for, if there is one.
    Row { track: Option<Track> },
    /// The records were deleted.
    RowsDeleted,
    /// The directory, a file or the request body failed; `detail` says how.
    IoFailed { detail: String },
    /// The store failed at `stage`; `detail` says how.
    StoreFailed { stage: StoreStage, detail: String },
}

/// Mathematical value of an [`Event`].
pub enum EventView {
    DirReady,
    PartBegin { name: Seq<char> },
    Text { text: Seq<char> },
    Bytes { bytes: Seq<u8> },
    PartEnd,
    StreamEnd,
    FileCreated,
    ChunkWritten,
    FileExists { exists: bool },
    FileRead { bytes: Seq<u8> },
    FileRemoved,
    RowInserted,
    Rows { tracks: Seq<TrackView> },
    Row { track: Option<TrackView> },
    RowsDeleted,
    IoFailed { detail: Seq<char> },
    StoreFailed { stage: StoreStage, detail: Seq<char> },
}

impl View for Event {
    type V = EventView;

    open spec fn view(&self) -> EventView {
        match self {
            Event::DirReady => EventView::DirReady,
            Event::PartBegin { name } => EventView::PartBegin { name: name@ },
            Event::Text { text } => EventView::Text { text: text@ },
            Event::Bytes { bytes } => EventView::Bytes { bytes: bytes@ },
            Event::PartEnd => EventView::PartEnd,
            Event::StreamEnd => EventView::StreamEnd,
            Event::FileCreated => EventView::FileCreated,
            Event::ChunkWritten => EventView::ChunkWritten,
            Event::FileExists { exists } => EventView::FileExists { exists: *exists },
            Event::FileRead { bytes } => EventView::FileRead { bytes: bytes@ },
            Event::FileRemoved => EventView::FileRemoved,
            Event::RowInserted => EventView::RowInserted,
            Event::Rows { tracks } => EventView::Rows { tracks: tracks.deep_view() },
            Event::Row { track } => EventView::Row { track: track.deep_view() },
            Event::RowsDeleted => EventView::RowsDeleted,
            Event::IoFailed { detail } => EventView::IoFailed { detail: detail@ },
            Event::StoreFailed { stage, detail } => EventView::StoreFailed {
                stage: *stage,
                detail: detail@,
            },
        }
    }
}

/// The answer that reports `failure` with `message`.
pub open spec fn failed(failure: Failure, message: Seq<char>) -> ActionView {
    ActionView::Respond { reply: ReplyView::Failed { failure, message } }
}

/// The action that answers with a failure.
pub fn fail(failure: Failure, message: String) -> (action: Action)
    ensures
        action@ == failed(failure, message@),
{
    Action::Respond { reply: Reply::Failed { failure, message } }
}

} // verus!
