//! One request from its arrival to its answer.

use crate::ingest::{
    creates_tame, ingest_start, ingest_step, Ingest, IngestPhase, IngestView,
};
use crate::lifecycle::{delete_open, removal_step, Removal, RemovalView};
use crate::naming::{is_canonical_id, is_hyphen_position, random_id};
use crate::protocol::{
    fail, failed, Action, ActionView, Event, EventView, Failure, Header, Reply, ReplyView,
};
use crate::retrieval::{
    find_open, list_open, retrieval_step, stream_audio_open, Lookup, Retrieval, RetrievalView,
};
use crate::track::{Metadata, MetadataView};
use vstd::prelude::*;
use vstd::string::StringExecFns;

verus! {

/// What a caller asks of the backend.
#[derive(Debug, PartialEq, Eq)]
pub enum Request {
    /// Store the file of the multipart body. `metadata` holds the scalar
    /// fields that came beside the body; fields of the body replace them.
    Upload { metadata: Metadata },
    /// List the tracks of an owner, if the request names one.
    ListTracks { user_id: Option<String> },
    /// Stream a file by its name.
    StreamAudio { file_path: String },
    /// Stream the file behind a demo identifier.
    StreamDemo { demo_id: String },
    /// Show the record behind a demo identifier.
    DemoDetails { demo_id: String },
    /// Delete a file and its records.
    DeleteAudio { file_path: String },
    /// Ask whether `origin` may send requests from another site.
    Preflight { origin: String },
}

/// Mathematical value of a [`Request`].
pub enum RequestView {
    Upload { metadata: MetadataView },
    ListTracks { user_id: Option<Seq<char>> },
    StreamAudio { file_path: Seq<char> },
    StreamDemo { demo_id: Seq<char> },
    DemoDetails { demo_id: Seq<char> },
    DeleteAudio { file_path: Seq<char> },
    Preflight { origin: Seq<char> },
}

impl View for Request {
    type V = RequestView;

    open spec fn view(&self) -> RequestView {
        match self {
            Request::Upload { metadata } => RequestView::Upload { metadata: metadata@ },
            Request::ListTracks { user_id } => RequestView::ListTracks {
                user_id: user_id.deep_view(),
            },
            Request::StreamAudio { file_path } => RequestView::StreamAudio {
                file_path: file_path@,
            },
            Request::StreamDemo { demo_id } => RequestView::StreamDemo { demo_id: demo_id@ },
            Request::DemoDetails { demo_id } => RequestView::DemoDetails { demo_id: demo_id@ },
            Request::DeleteAudio { file_path } => RequestView::DeleteAudio {
                file_path: file_path@,
            },
            Request::Preflight { origin } => RequestView::Preflight { origin: origin@ },
        }
    }
}

/// State of one request.
#[derive(Debug, PartialEq, Eq)]
pub enum Session {
    /// An upload.
    Upload(Ingest),
    /// A listing, a stream or a look at a record.
    Retrieval(Retrieval),
    /// A delete.
    Removal(Removal),
    /// Answered at once.
    Closed,
}

/// Mathematical value of a [`Session`].
pub enum SessionView {
    Upload(IngestView),
    Retrieval(RetrievalView),
    Removal(RemovalView),
    Closed,
}

impl View for Session {
    type V = SessionView;

    open spec fn view(&self) -> SessionView {
        match self {
            Session::Upload(ingest) => SessionView::Upload(ingest@),
            Session::Retrieval(retrieval) => SessionView::Retrieval(retrieval@),
            Session::Removal(removal) => SessionView::Removal(removal@),
            Session::Closed => SessionView::Closed,
        }
    }
}

impl SessionView {
    /// Whether the request was answered.
    pub open spec fn is_closed(self) -> bool {
        match self {
            SessionView::Upload(ingest) => ingest.phase == IngestPhase::Closed,
            SessionView::Retrieval(retrieval) => retrieval is Closed,
            SessionView::Removal(removal) => removal is Closed,
            SessionView::Closed => true,
        }
    }
}

/// The headers that answer a pre-flight request from `origin`: the origin
/// itself is allowed, with the four methods of the backend, the headers it
/// reads, and credentials.
pub open spec fn preflight_headers(origin: Seq<char>) -> Seq<(Seq<char>, Seq<char>)> {
    seq![
        ("Access-Control-Allow-Origin"@, origin),
        ("Access-Control-Allow-Methods"@, "GET, POST, OPTIONS, DELETE"@),
        ("Access-Control-Allow-Headers"@, "Content-Type, Authorization, Accept, user_id"@),
        ("Access-Control-Allow-Credentials"@, "true"@),
    ]
}

/// The state a request starts in and what to do first. `demo_id` is the
/// identifier minted for the request; only an upload uses it.
pub open spec fn session_open(request: RequestView, demo_id: Seq<char>) -> (
    SessionView,
    ActionView,
) {
    match request {
        RequestView::Upload { metadata } => (
            SessionView::Upload(ingest_start(demo_id, metadata)),
            ActionView::EnsureDir,
        ),
        RequestView::ListTracks { user_id } => {
            let (retrieval, action) = list_open(user_id);
            (SessionView::Retrieval(retrieval), action)
        },
        RequestView::StreamAudio { file_path } => {
            let (retrieval, action) = stream_audio_open(file_path);
            (SessionView::Retrieval(retrieval), action)
        },
        RequestView::StreamDemo { demo_id } => {
            let (retrieval, action) = find_open(demo_id, Lookup::Stream);
            (SessionView::Retrieval(retrieval), action)
        },
        RequestView::DemoDetails { demo_id } => {
            let (retrieval, action) = find_open(demo_id, Lookup::Details);
            (SessionView::Retrieval(retrieval), action)
        },
        RequestView::DeleteAudio { file_path } => {
            let (removal, action) = delete_open(file_path);
            (SessionView::Removal(removal), action)
        },
        RequestView::Preflight { origin } => (
            SessionView::Closed,
            ActionView::Respond {
                reply: ReplyView::Preflight { headers: preflight_headers(origin) },
            },
        ),
    }
}

/// One step of a request: the state after `e` and what to do next.
pub open spec fn session_step(s: SessionView, e: EventView) -> (SessionView, ActionView) {
    match s {
        SessionView::Upload(ingest) => {
            let (ingest, action) = ingest_step(ingest, e);
            (SessionView::Upload(ingest), action)
        },
        SessionView::Retrieval(retrieval) => {
            let (retrieval, action) = retrieval_step(retrieval, e);
            (SessionView::Retrieval(retrieval), action)
        },
        SessionView::Removal(removal) => {
            let (removal, action) = removal_step(removal, e);
            (SessionView::Removal(removal), action)
        },
        SessionView::Closed => (
            SessionView::Closed,
            failed(Failure::Protocol, "Unexpected event"@),
        ),
    }
}

/// A canonical identifier: the one with every digit zero.
pub open spec fn nil_id() -> Seq<char> {
    Seq::new(36, |i: int| if is_hyphen_position(i) { '-' } else { '0' })
}

fn header(name: &str, value: String) -> (h: Header)
    ensures
        h@ == (name@, value@),
{
    Header { name: String::from_str(name), value }
}

/// The headers that answer a pre-flight request from `origin`.
pub fn preflight(origin: String) -> (headers: Vec<Header>)
    ensures
        headers.deep_view() == preflight_headers(origin@),
{
    let mut headers: Vec<Header> = Vec::new();
    headers.push(header("Access-Control-Allow-Origin", origin));
    headers.push(
        header("Access-Control-Allow-Methods", String::from_str("GET, POST, OPTIONS, DELETE")),
    );
    headers.push(
        header(
            "Access-Control-Allow-Headers",
            String::from_str("Content-Type, Authorization, Accept, user_id"),
        ),
    );
    headers.push(header("Access-Control-Allow-Credentials", String::from_str("true")));
    assert(headers.deep_view() =~= preflight_headers(origin@));
    headers
}

impl Session {
    /// Starts work on a request whose identifier, should it need one, is
    /// `demo_id`.
    pub fn open_with_id(request: Request, demo_id: String) -> (start: (Session, Action))
        ensures
            (start.0@, start.1@) == session_open(request@, demo_id@),
    {
        match request {
            Request::Upload { metadata } => {
                let (ingest, action) = Ingest::begin(demo_id, metadata);
                (Session::Upload(ingest), action)
            },
            Request::ListTracks { user_id } => {
                let (retrieval, action) = Retrieval::list_tracks(user_id);
                (Session::Retrieval(retrieval), action)
            },
            Request::StreamAudio { file_path } => {
                let (retrieval, action) = Retrieval::stream_audio(file_path);
                (Session::Retrieval(retrieval), action)
            },
            Request::StreamDemo { demo_id } => {
                let (retrieval, action) = Retrieval::stream_demo(demo_id);
                (Session::Retrieval(retrieval), action)
            },
            Request::DemoDetails { demo_id } => {
                let (retrieval, action) = Retrieval::get_demo_details(demo_id);
                (Session::Retrieval(retrieval), action)
            },
            Request::DeleteAudio { file_path } => {
                let (removal, action) = Removal::delete_audio(file_path);
                (Session::Removal(removal), action)
            },
            Request::Preflight { origin } => (
                Session::Closed,
                Action::Respond { reply: Reply::Preflight { headers: preflight(origin) } },
            ),
        }
    }

    /// Starts work on a request. An upload gets a freshly minted demo
    /// identifier, in canonical form; which one is up to the generator.
    pub fn open(request: Request) -> (start: (Session, Action))
        ensures
            exists|id: Seq<char>|
                is_canonical_id(id) && (start.0@, start.1@) == #[trigger] session_open(
                    request@,
                    id,
                ),
    {
        match request {
            Request::Upload { metadata } => {
                let request = Request::Upload { metadata };
                let demo_id = random_id();
                let start = Session::open_with_id(request, demo_id);
                assert((start.0@, start.1@) == session_open(request@, demo_id@));
                start
            },
            _ => {
                let start = Session::open_with_id(request, String::new());
                assert(is_canonical_id(nil_id()));
                assert((start.0@, start.1@) == session_open(request@, nil_id()));
                start
            },
        }
    }

    /// Whether the request was answered.
    pub fn is_closed(&self) -> (closed: bool)
        ensures
            closed == self@.is_closed(),
    {
        match self {
            Session::Upload(ingest) => ingest.is_closed(),
            Session::Retrieval(Retrieval::Closed) => true,
            Session::Retrieval(_) => false,
            Session::Removal(Removal::Closed) => true,
            Session::Removal(_) => false,
            Session::Closed => true,
        }
    }

    /// Takes what the host reports and says what to do next.
    pub fn step(self, event: Event) -> (next: (Session, Action))
        ensures
            (next.0@, next.1@) == session_step(self@, event@),
            self@ matches SessionView::Upload(ingest) ==> is_canonical_id(ingest.demo_id)
                ==> creates_tame(next.1@),
    {
        match self {
            Session::Upload(ingest) => {
                let (ingest, action) = ingest.step(event);
                (Session::Upload(ingest), action)
            },
            Session::Retrieval(retrieval) => {
                let (retrieval, action) = retrieval.step(event);
                (Session::Retrieval(retrieval), action)
            },
            Session::Removal(removal) => {
                let (removal, action) = removal.step(event);
                (Session::Removal(removal), action)
            },
            Session::Closed => (
                Session::Closed,
                fail(Failure::Protocol, String::from_str("Unexpected event")),
            ),
        }
    }
}

} // verus!
