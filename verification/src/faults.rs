//! A host that may fail.
//!
//! The host of [`crate::model`] always does what it is asked. Here any action
//! may fail instead: the directory, a file or the body with an I/O failure,
//! the store at any stage. This module proves what no failure can undo: a
//! record never stands without its file, and a record is never deleted
//! while its file is still there.

use crate::ingest::{ingest_start, ingest_step, record_of, IngestPhase, IngestView};
use crate::model::{rank, react, rows_without_file, run, World};
use crate::protocol::{ActionView, EventView, ReplyView, StoreStage};
use crate::session::{session_open, session_step, RequestView, SessionView};
use crate::track::MetadataView;
use vstd::prelude::*;

verus! {

/// How an action fails.
pub struct Fault {
    /// Where the store fails, if the action is one on the store.
    pub stage: StoreStage,
    /// What the host says of the failure.
    pub detail: Seq<char>,
    /// How many bytes a write has written before it fails.
    pub written: nat,
}

/// Whether an action is one on the store.
pub open spec fn is_store_action(a: ActionView) -> bool {
    a is InsertRow || a is SelectByUser || a is SelectByDemo || a is DeleteByPath
}

/// What the host does and reports when `a` fails. A statement that fails
/// changes no record, a file that cannot be created or deleted stays as it
/// was, and a write that fails may have written some of its bytes.
pub open spec fn falter(w: World, a: ActionView, fault: Fault) -> (World, EventView) {
    if is_store_action(a) {
        (w, EventView::StoreFailed { stage: fault.stage, detail: fault.detail })
    } else {
        let after = match a {
            ActionView::AppendFile { file_path, bytes } => if w.files.dom().contains(file_path)
                && fault.written <= bytes.len() {
                World {
                    files: w.files.insert(
                        file_path,
                        w.files[file_path] + bytes.take(fault.written as int),
                    ),
                    ..w
                }
            } else {
                w
            },
            _ => w,
        };
        (after, EventView::IoFailed { detail: fault.detail })
    }
}

/// What the host does when asked for `a`, given whether and how it fails.
pub open spec fn attempt(w: World, a: ActionView, fault: Option<Fault>) -> (World, EventView) {
    match fault {
        Some(fault) => falter(w, a, fault),
        None => react(w, a),
    }
}

/// The faults that are left after one action.
pub open spec fn rest(faults: Seq<Option<Fault>>) -> Seq<Option<Fault>> {
    if faults.len() > 0 {
        faults.drop_first()
    } else {
        faults
    }
}

/// Whether and how the next action fails.
pub open spec fn next_fault(faults: Seq<Option<Fault>>) -> Option<Fault> {
    if faults.len() > 0 {
        faults[0]
    } else {
        None
    }
}

/// The world and the answer once the session `s`, which has just asked for
/// `a`, is through, on a host whose actions fail as `faults` says, one entry
/// for each action in turn. Past the end of `faults` nothing fails.
pub open spec fn run_with_faults(
    s: SessionView,
    a: ActionView,
    w: World,
    faults: Seq<Option<Fault>>,
) -> (World, ReplyView)
    decreases w.body.len(), w.pending.len(), rank(a),
{
    match a {
        ActionView::Respond { reply } => (w, reply),
        _ => {
            let (w, e) = attempt(w, a, next_fault(faults));
            let (s, a) = session_step(s, e);
            run_with_faults(s, a, w, rest(faults))
        },
    }
}

/// The world after a request and the answer to it on a host that fails as
/// `faults` says.
pub open spec fn serve_with_faults(
    request: RequestView,
    demo_id: Seq<char>,
    w: World,
    faults: Seq<Option<Fault>>,
) -> (World, ReplyView) {
    let (s, a) = session_open(request, demo_id);
    run_with_faults(s, a, w, faults)
}

/// Whether no action fails.
pub open spec fn faultless(faults: Seq<Option<Fault>>) -> bool {
    forall|i: int| 0 <= i < faults.len() ==> (#[trigger] faults[i]) is None
}

/// Where nothing fails, the host is the one that never fails.
pub proof fn law_without_faults(
    s: SessionView,
    a: ActionView,
    w: World,
    faults: Seq<Option<Fault>>,
)
    requires
        faultless(faults),
    ensures
        run_with_faults(s, a, w, faults) == run(s, a, w),
    decreases w.body.len(), w.pending.len(), rank(a),
{
    if !(a is Respond) {
        if faults.len() > 0 {
            assert(faults[0] is None);
        }
        let (w1, e) = react(w, a);
        let (s1, a1) = session_step(s, e);
        assert forall|i: int| 0 <= i < rest(faults).len() implies (#[trigger] rest(
            faults,
        )[i]) is None by {
            assert(rest(faults)[i] == faults[i + 1]);
        }
        law_without_faults(s1, a1, w1, rest(faults));
    }
}

/// Whether an upload and the world agree: a file that the upload reads into
/// or has stored is there, and what the upload has asked for is what its
/// phase asks for.
pub open spec fn in_step(s: IngestView, a: ActionView, w: World) -> bool {
    &&& s.stored || s.phase == IngestPhase::ReadingFile || s.phase == IngestPhase::Writing
        ==> w.files.dom().contains(s.file_path)
    &&& match a {
        ActionView::EnsureDir => s.phase == IngestPhase::Preparing,
        ActionView::NextPart => s.phase == IngestPhase::BetweenParts,
        ActionView::NextText => s.phase is ReadingField,
        ActionView::NextBytes => s.phase == IngestPhase::ReadingFile,
        ActionView::CreateFile { file_path } => s.phase == IngestPhase::Creating && file_path
            == s.file_path,
        ActionView::AppendFile { file_path, .. } => s.phase == IngestPhase::Writing && file_path
            == s.file_path,
        ActionView::InsertRow { track } => s.phase == IngestPhase::Recording && s.stored && track
            == record_of(s),
        ActionView::Respond { reply } => s.phase == IngestPhase::Closed && !(reply is Uploaded),
        _ => false,
    }
}

/// What holds of the world after an upload, whatever failed: no file is
/// gone, and the store holds what it held, or one record more whose file is
/// there. The upload is answered as stored exactly if that record was added.
pub open spec fn record_has_file(
    w: World,
    end: World,
    reply: ReplyView,
    demo_id: Seq<char>,
) -> bool {
    &&& forall|p: Seq<char>| w.files.dom().contains(p) ==> #[trigger] end.files.dom().contains(p)
    &&& if reply is Uploaded {
        &&& end.rows.len() == w.rows.len() + 1
        &&& end.rows.drop_last() == w.rows
        &&& end.rows.last().demo_id == demo_id
        &&& end.files.dom().contains(end.rows.last().file_path)
    } else {
        end.rows == w.rows
    }
}

/// An upload that is in step with the world leaves no record without file.
proof fn lemma_upload_leaves_no_record_without_file(
    s: IngestView,
    a: ActionView,
    w: World,
    faults: Seq<Option<Fault>>,
)
    requires
        in_step(s, a, w),
    ensures
        ({
            let (end, reply) = run_with_faults(SessionView::Upload(s), a, w, faults);
            record_has_file(w, end, reply, s.demo_id)
        }),
    decreases w.body.len(), w.pending.len(), rank(a),
{
    let (end, reply) = run_with_faults(SessionView::Upload(s), a, w, faults);
    if !(a is Respond) {
        let (w1, e) = attempt(w, a, next_fault(faults));
        let (s1, a1) = ingest_step(s, e);
        assert((end, reply) == run_with_faults(SessionView::Upload(s1), a1, w1, rest(faults)));
        assert forall|p: Seq<char>| w.files.dom().contains(p) implies #[trigger]
            w1.files.dom().contains(p) by {}
        if a is InsertRow && next_fault(faults) is None {
            let track = a->track;
            assert(w1.rows == w.rows.push(track));
            assert(a1 is Respond);
            assert(end == w1);
            assert(end.rows.drop_last() =~= w.rows);
        } else {
            assert(w1.rows == w.rows);
            assert(in_step(s1, a1, w1));
            lemma_upload_leaves_no_record_without_file(s1, a1, w1, rest(faults));
        }
    }
}

/// Whatever fails during an upload, no record is left without its file: the
/// store holds what it held, or one record more, with the demo identifier
/// of the upload, whose file is in the upload directory. The upload is
/// answered as stored exactly if that record was added, and no file that
/// was there is gone.
pub proof fn law_no_record_without_file(
    metadata: MetadataView,
    demo_id: Seq<char>,
    w: World,
    faults: Seq<Option<Fault>>,
)
    ensures
        ({
            let (end, reply) = serve_with_faults(
                RequestView::Upload { metadata },
                demo_id,
                w,
                faults,
            );
            record_has_file(w, end, reply, demo_id)
        }),
{
    lemma_upload_leaves_no_record_without_file(
        ingest_start(demo_id, metadata),
        ActionView::EnsureDir,
        w,
        faults,
    );
}

/// Whatever fails during a delete, no record is deleted while its file is
/// still there: either the store holds what it held, or the file is gone
/// and with it every record of it, and no other. No other file is touched.
/// The delete is answered as done only if both the file and its records are
/// gone.
pub proof fn law_no_record_deleted_before_its_file(
    file_path: Seq<char>,
    demo_id: Seq<char>,
    w: World,
    faults: Seq<Option<Fault>>,
)
    ensures
        ({
            let (end, reply) = serve_with_faults(
                RequestView::DeleteAudio { file_path },
                demo_id,
                w,
                faults,
            );
            &&& end.rows == w.rows || (end.rows == rows_without_file(w.rows, file_path)
                && !end.files.dom().contains(file_path))
            &&& end.files == w.files || end.files == w.files.remove(file_path)
            &&& reply is Deleted ==> end.rows == rows_without_file(w.rows, file_path)
                && !end.files.dom().contains(file_path)
            &&& !w.files.dom().contains(file_path) ==> end.rows == w.rows && end.files == w.files
        }),
{
    reveal_with_fuel(run_with_faults, 5);
}

/// Whatever fails during a read request, nothing changes: the records and
/// the files are what they were.
pub proof fn law_reads_leave_the_world_alone(
    request: RequestView,
    demo_id: Seq<char>,
    w: World,
    faults: Seq<Option<Fault>>,
)
    requires
        request is ListTracks || request is StreamAudio || request is StreamDemo
            || request is DemoDetails,
    ensures
        serve_with_faults(request, demo_id, w, faults).0.rows == w.rows,
        serve_with_faults(request, demo_id, w, faults).0.files == w.files,
{
    reveal_with_fuel(run_with_faults, 5);
}

} // verus!
