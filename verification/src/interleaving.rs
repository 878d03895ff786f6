//! Uploads in flight at the same time.
//!
//! Requests are served side by side: the steps of one may fall between the
//! steps of another, in any order. Each request has its own body; all share
//! the store and the upload directory. This module says what such a mix
//! comes to for uploads, and proves that no upload disturbs another.

use crate::ingest::{ingest_start, ingest_step, IngestView};
use crate::laws::{
    is_first_file, is_name_under, keeps_to_its_file, law_upload_keeps_to_its_file,
    law_upload_stores_the_file, touches,
};
use crate::model::{joined, rank, react, rows_of_demo, run, settle, Part, World};
use crate::naming::{
    audio_url, is_canonical_id, law_distinct_ids_give_distinct_names, stored_name,
};
use crate::protocol::{ActionView, EventView, ReplyView, UploadResponseView};
use crate::session::SessionView;
use crate::track::{MetadataView, TrackView};
use vstd::prelude::*;

verus! {

/// What all requests share.
#[verifier::ext_equal]
pub struct Shared {
    /// The records of the store, oldest first.
    pub rows: Seq<TrackView>,
    /// The files of the upload directory by name.
    pub files: Map<Seq<char>, Seq<u8>>,
}

/// One upload in flight.
pub struct Lane {
    /// The state of the upload.
    pub ingest: IngestView,
    /// What it has asked for and not yet got.
    pub action: ActionView,
    /// The parts of its body that were not begun yet.
    pub body: Seq<Part>,
    /// The chunks of its current part that were not read yet.
    pub pending: Seq<Seq<u8>>,
}

/// What a lane sees: the shared store and directory, and its own body.
pub open spec fn world_of(shared: Shared, lane: Lane) -> World {
    World { rows: shared.rows, files: shared.files, body: lane.body, pending: lane.pending }
}

/// A lane takes one step: the host does what the lane has asked for, and
/// the upload takes the report. A lane that was answered stays as it is.
pub open spec fn advance(lane: Lane, shared: Shared) -> (Lane, Shared) {
    if lane.action is Respond {
        (lane, shared)
    } else {
        let (w, e) = react(world_of(shared, lane), lane.action);
        let (ingest, action) = ingest_step(lane.ingest, e);
        (
            Lane { ingest, action, body: w.body, pending: w.pending },
            Shared { rows: w.rows, files: w.files },
        )
    }
}

/// The lanes and what they share after the lanes took steps in the order of
/// `schedule`, which names a lane by its index for each step. An index that
/// names no lane is passed over.
pub open spec fn play(lanes: Seq<Lane>, shared: Shared, schedule: Seq<int>) -> (Seq<Lane>, Shared)
    decreases schedule.len(),
{
    if schedule.len() == 0 {
        (lanes, shared)
    } else {
        let (lanes, shared) = play(lanes, shared, schedule.drop_last());
        let k = schedule.last();
        if 0 <= k < lanes.len() {
            let (lane, shared) = advance(lanes[k], shared);
            (lanes.update(k, lane), shared)
        } else {
            (lanes, shared)
        }
    }
}

/// The lane of an upload that has just arrived.
pub open spec fn arrival(demo_id: Seq<char>, metadata: MetadataView, body: Seq<Part>) -> Lane {
    Lane {
        ingest: ingest_start(demo_id, metadata),
        action: ActionView::EnsureDir,
        body,
        pending: Seq::empty(),
    }
}

/// Whether what an upload has asked for is its own business: the body, the
/// directory, a file under its own demo identifier, or its own record.
pub open spec fn in_order(s: IngestView, a: ActionView) -> bool {
    &&& keeps_to_its_file(s)
    &&& match a {
        ActionView::EnsureDir => true,
        ActionView::NextPart => true,
        ActionView::NextText => true,
        ActionView::NextBytes => true,
        ActionView::CreateFile { file_path } => is_name_under(file_path, s.demo_id),
        ActionView::AppendFile { file_path, .. } => is_name_under(file_path, s.demo_id),
        ActionView::InsertRow { track } => track.demo_id == s.demo_id,
        ActionView::Respond { .. } => true,
        _ => false,
    }
}

/// An upload stays in order with every step.
pub proof fn lemma_order_is_kept(s: IngestView, e: EventView)
    requires
        keeps_to_its_file(s),
    ensures
        in_order(ingest_step(s, e).0, ingest_step(s, e).1),
        ingest_step(s, e).0.demo_id == s.demo_id,
{
    law_upload_keeps_to_its_file(s, e);
    let a = ingest_step(s, e).1;
    match a {
        ActionView::CreateFile { file_path } => {
            assert(touches(a, file_path));
        },
        ActionView::AppendFile { file_path, .. } => {
            assert(touches(a, file_path));
        },
        _ => {},
    }
}

/// Whether two worlds look alike to an upload under `demo_id`: the same
/// body, and the same files under every name made of that identifier.
pub open spec fn alike(w: World, other: World, demo_id: Seq<char>) -> bool {
    &&& w.body == other.body
    &&& w.pending == other.pending
    &&& same_files_under(w.files, other.files, demo_id)
}

/// Whether two directories hold the same files under every name made of
/// `demo_id`.
pub open spec fn same_files_under(
    files: Map<Seq<char>, Seq<u8>>,
    other: Map<Seq<char>, Seq<u8>>,
    demo_id: Seq<char>,
) -> bool {
    forall|p: Seq<char>| #[trigger]
        is_name_under(p, demo_id) ==> (files.dom().contains(p) <==> other.dom().contains(p))
            && files[p] == other[p]
}

/// The records that a run adds to the store.
pub open spec fn added(s: IngestView, a: ActionView, w: World) -> Seq<TrackView> {
    run(SessionView::Upload(s), a, w).0.rows.skip(w.rows.len() as int)
}

/// An upload sees nothing of the world but its body and its own files: run
/// in two worlds that look alike to it, it gives the same answer, leaves its
/// own files the same, and adds the same records, all its own, at the end of
/// what the store held.
pub proof fn lemma_upload_minds_its_own(s: IngestView, a: ActionView, w: World, other: World)
    requires
        in_order(s, a),
        alike(w, other, s.demo_id),
    ensures
        run(SessionView::Upload(s), a, w).1 == run(SessionView::Upload(s), a, other).1,
        same_files_under(
            run(SessionView::Upload(s), a, w).0.files,
            run(SessionView::Upload(s), a, other).0.files,
            s.demo_id,
        ),
        run(SessionView::Upload(s), a, w).0.rows == w.rows + added(s, a, w),
        run(SessionView::Upload(s), a, other).0.rows == other.rows + added(s, a, w),
        forall|i: int| 0 <= i < added(s, a, w).len() ==> (#[trigger] added(s, a, w)[i]).demo_id
            == s.demo_id,
    decreases w.body.len(), w.pending.len(), rank(a),
{
    let here = run(SessionView::Upload(s), a, w);
    let there = run(SessionView::Upload(s), a, other);
    if a is Respond {
        assert(added(s, a, w) =~= Seq::<TrackView>::empty());
        assert(w.rows + added(s, a, w) =~= w.rows);
        assert(other.rows + added(s, a, w) =~= other.rows);
    } else {
        let (w1, e) = react(w, a);
        let (other1, other_e) = react(other, a);
        match a {
            ActionView::CreateFile { file_path } => {
                assert(is_name_under(file_path, s.demo_id));
            },
            ActionView::AppendFile { file_path, .. } => {
                assert(is_name_under(file_path, s.demo_id));
            },
            _ => {},
        }
        assert(e == other_e);
        let (s1, a1) = ingest_step(s, e);
        lemma_order_is_kept(s, e);
        assert(alike(w1, other1, s1.demo_id)) by {
            assert forall|p: Seq<char>| #[trigger] is_name_under(p, s.demo_id) implies (
            w1.files.dom().contains(p) <==> other1.files.dom().contains(p)) && w1.files[p]
                == other1.files[p] by {
                match a {
                    ActionView::CreateFile { file_path } => {
                        assert(is_name_under(file_path, s.demo_id));
                    },
                    ActionView::AppendFile { file_path, .. } => {
                        assert(is_name_under(file_path, s.demo_id));
                    },
                    _ => {},
                }
            }
        }
        assert(here == run(SessionView::Upload(s1), a1, w1));
        assert(there == run(SessionView::Upload(s1), a1, other1));
        lemma_upload_minds_its_own(s1, a1, w1, other1);
        let more = added(s1, a1, w1);
        if a is InsertRow {
            let track = a->track;
            assert(w1.rows == w.rows.push(track));
            assert(other1.rows == other.rows.push(track));
            assert(here.0.rows =~= w.rows + (seq![track] + more));
            assert(added(s, a, w) =~= seq![track] + more);
            assert(there.0.rows =~= other.rows + (seq![track] + more));
        } else {
            assert(w1.rows == w.rows);
            assert(other1.rows == other.rows);
            assert(added(s, a, w) =~= more);
        }
    }
}

/// A name is made of one demo identifier only.
pub proof fn lemma_names_tell_ids_apart(file_path: Seq<char>, demo_id: Seq<char>, other: Seq<char>)
    requires
        is_canonical_id(demo_id),
        is_canonical_id(other),
        demo_id != other,
        is_name_under(file_path, demo_id),
    ensures
        !is_name_under(file_path, other),
{
    if is_name_under(file_path, other) {
        let title = choose|title: Seq<char>| file_path == #[trigger] stored_name(title, demo_id);
        let other_title = choose|title: Seq<char>|
            file_path == #[trigger] stored_name(title, other);
        law_distinct_ids_give_distinct_names(title, demo_id, other_title, other);
    }
}

/// Whether an upload in flight is on course to store `content` under
/// `file_path` and to record it once: run from here to its end with no other
/// request in its way, it would be answered with its demo identifier and the
/// URL of the file, leave the file with that content, and leave one record
/// with its demo identifier.
pub open spec fn on_course(
    lane: Lane,
    shared: Shared,
    demo_id: Seq<char>,
    file_path: Seq<char>,
    content: Seq<u8>,
) -> bool {
    let (end, reply) = run(SessionView::Upload(lane.ingest), lane.action, world_of(shared, lane));
    &&& lane.ingest.demo_id == demo_id
    &&& in_order(lane.ingest, lane.action)
    &&& is_name_under(file_path, demo_id)
    &&& reply == uploaded(demo_id, file_path)
    &&& end.files.dom().contains(file_path)
    &&& end.files[file_path] == content
    &&& rows_of_demo(end.rows, demo_id).len() == 1
}

/// The answer to an upload that is stored and recorded.
pub open spec fn uploaded(demo_id: Seq<char>, file_path: Seq<char>) -> ReplyView {
    ReplyView::Uploaded {
        receipt: UploadResponseView {
            message: "File uploaded successfully"@,
            demo_id,
            file_url: audio_url(file_path),
        },
    }
}

/// An upload that arrives with a file part in its body, under a demo
/// identifier that no record carries, is on course to store that part.
pub proof fn lemma_arrival_is_on_course(
    demo_id: Seq<char>,
    metadata: MetadataView,
    body: Seq<Part>,
    i: int,
    shared: Shared,
)
    requires
        is_first_file(body, i),
        rows_of_demo(shared.rows, demo_id).len() == 0,
    ensures
        on_course(
            arrival(demo_id, metadata, body),
            shared,
            demo_id,
            stored_name(settle(metadata, body.take(i)).title, demo_id),
            joined(body[i].chunks),
        ),
{
    let lane = arrival(demo_id, metadata, body);
    let w = world_of(shared, lane);
    law_upload_stores_the_file(metadata, demo_id, w, i);
    law_upload_keeps_to_its_file(lane.ingest, EventView::DirReady);
    let end = run(SessionView::Upload(lane.ingest), lane.action, w).0;
    let track = end.rows.last();
    assert(end.rows == shared.rows.push(track));
    shared.rows.lemma_filter_push(track, |t: TrackView| t.demo_id == demo_id);
}

/// One step of another upload leaves an upload on course.
proof fn lemma_step_keeps_others_on_course(
    lane: Lane,
    shared: Shared,
    demo_id: Seq<char>,
    file_path: Seq<char>,
    content: Seq<u8>,
    other: Lane,
)
    requires
        on_course(lane, shared, demo_id, file_path, content),
        in_order(other.ingest, other.action),
        is_canonical_id(demo_id),
        is_canonical_id(other.ingest.demo_id),
        other.ingest.demo_id != demo_id,
    ensures
        on_course(lane, advance(other, shared).1, demo_id, file_path, content),
{
    let after = advance(other, shared).1;
    if !(other.action is Respond) {
        let w = world_of(shared, lane);
        let w2 = world_of(after, lane);
        assert forall|p: Seq<char>| #[trigger] is_name_under(p, demo_id) implies (
        w.files.dom().contains(p) <==> w2.files.dom().contains(p)) && w.files[p]
            == w2.files[p] by {
            lemma_names_tell_ids_apart(p, demo_id, other.ingest.demo_id);
        }
        lemma_upload_minds_its_own(lane.ingest, lane.action, w, w2);
        let more = added(lane.ingest, lane.action, w);
        let wanted = |t: TrackView| t.demo_id == demo_id;
        Seq::filter_distributes_over_add(w.rows, more, wanted);
        Seq::filter_distributes_over_add(w2.rows, more, wanted);
        if other.action is InsertRow {
            let track = other.action->track;
            assert(w2.rows == w.rows.push(track));
            w.rows.lemma_filter_push(track, wanted);
        } else {
            assert(w2.rows == w.rows);
        }
    }
}

/// Its own step leaves an upload on course.
proof fn lemma_own_step_keeps_on_course(
    lane: Lane,
    shared: Shared,
    demo_id: Seq<char>,
    file_path: Seq<char>,
    content: Seq<u8>,
)
    requires
        on_course(lane, shared, demo_id, file_path, content),
    ensures
        on_course(advance(lane, shared).0, advance(lane, shared).1, demo_id, file_path, content),
{
    if !(lane.action is Respond) {
        let (w, e) = react(world_of(shared, lane), lane.action);
        lemma_order_is_kept(lane.ingest, e);
        let (next, after) = advance(lane, shared);
        assert(world_of(after, next) =~= w);
    }
}

/// Whether every lane is on course to store its file: lane `k` the content
/// `contents[k]` under `paths[k]`, with the demo identifier `ids[k]`.
pub open spec fn all_on_course(
    lanes: Seq<Lane>,
    shared: Shared,
    ids: Seq<Seq<char>>,
    paths: Seq<Seq<char>>,
    contents: Seq<Seq<u8>>,
) -> bool {
    &&& ids.len() == lanes.len()
    &&& paths.len() == lanes.len()
    &&& contents.len() == lanes.len()
    &&& forall|k: int|
        0 <= k < lanes.len() ==> on_course(
            #[trigger] lanes[k],
            shared,
            ids[k],
            paths[k],
            contents[k],
        )
}

/// Whether the identifiers are canonical and no two are the same.
pub open spec fn all_distinct(ids: Seq<Seq<char>>) -> bool {
    &&& forall|k: int| 0 <= k < ids.len() ==> is_canonical_id(#[trigger] ids[k])
    &&& forall|j: int, k: int| 0 <= j < k < ids.len() ==> ids[j] != ids[k]
}

/// Uploads under different demo identifiers stay on course however their
/// steps are interleaved.
pub proof fn law_interleaving_keeps_uploads_on_course(
    lanes: Seq<Lane>,
    shared: Shared,
    ids: Seq<Seq<char>>,
    paths: Seq<Seq<char>>,
    contents: Seq<Seq<u8>>,
    schedule: Seq<int>,
)
    requires
        all_on_course(lanes, shared, ids, paths, contents),
        all_distinct(ids),
    ensures
        play(lanes, shared, schedule).0.len() == lanes.len(),
        all_on_course(
            play(lanes, shared, schedule).0,
            play(lanes, shared, schedule).1,
            ids,
            paths,
            contents,
        ),
    decreases schedule.len(),
{
    if schedule.len() > 0 {
        law_interleaving_keeps_uploads_on_course(
            lanes,
            shared,
            ids,
            paths,
            contents,
            schedule.drop_last(),
        );
        let (before, held) = play(lanes, shared, schedule.drop_last());
        let j = schedule.last();
        if 0 <= j < before.len() {
            let (lane, after) = advance(before[j], held);
            let now = before.update(j, lane);
            assert forall|k: int| 0 <= k < now.len() implies on_course(
                #[trigger] now[k],
                after,
                ids[k],
                paths[k],
                contents[k],
            ) by {
                assert(on_course(before[k], held, ids[k], paths[k], contents[k]));
                assert(on_course(before[j], held, ids[j], paths[j], contents[j]));
                if k == j {
                    lemma_own_step_keeps_on_course(before[j], held, ids[j], paths[j], contents[j]);
                } else {
                    assert(is_canonical_id(ids[k]));
                    assert(is_canonical_id(ids[j]));
                    if k < j {
                        assert(ids[k] != ids[j]);
                    } else {
                        assert(ids[j] != ids[k]);
                    }
                    lemma_step_keeps_others_on_course(
                        before[k],
                        held,
                        ids[k],
                        paths[k],
                        contents[k],
                        before[j],
                    );
                }
            }
        }
    }
}

/// Concurrent uploads do not disturb one another. Let uploads arrive under
/// canonical demo identifiers of which no two are the same and none is
/// carried by a record, each with a file part in its body, and let their
/// steps be interleaved in any order. Then every upload that was answered
/// has succeeded: its answer carries its demo identifier and the URL of its
/// file, the file holds exactly the bytes of its own file part, there is
/// exactly one record with its demo identifier, and no other upload has its
/// file name.
pub proof fn law_concurrent_uploads_keep_apart(
    ids: Seq<Seq<char>>,
    metadata: Seq<MetadataView>,
    bodies: Seq<Seq<Part>>,
    files_at: Seq<int>,
    shared: Shared,
    schedule: Seq<int>,
    k: int,
)
    requires
        metadata.len() == ids.len(),
        bodies.len() == ids.len(),
        files_at.len() == ids.len(),
        all_distinct(ids),
        forall|j: int| 0 <= j < ids.len() ==> is_first_file(#[trigger] bodies[j], files_at[j]),
        forall|j: int|
            0 <= j < ids.len() ==> rows_of_demo(shared.rows, #[trigger] ids[j]).len() == 0,
        0 <= k < ids.len(),
        play(arrivals(ids, metadata, bodies), shared, schedule).0[k].action is Respond,
    ensures
        ({
            let (lanes, end) = play(arrivals(ids, metadata, bodies), shared, schedule);
            let file_path = path_of(ids[k], metadata[k], bodies[k], files_at[k]);
            &&& lanes[k].action == (ActionView::Respond { reply: uploaded(ids[k], file_path) })
            &&& end.files.dom().contains(file_path)
            &&& end.files[file_path] == joined(bodies[k][files_at[k]].chunks)
            &&& rows_of_demo(end.rows, ids[k]).len() == 1
            &&& forall|j: int|
                0 <= j < ids.len() && j != k ==> #[trigger] path_of(
                    ids[j],
                    metadata[j],
                    bodies[j],
                    files_at[j],
                ) != file_path
        }),
{
    let lanes = arrivals(ids, metadata, bodies);
    let paths = Seq::new(
        ids.len(),
        |j: int| path_of(ids[j], metadata[j], bodies[j], files_at[j]),
    );
    let contents = Seq::new(ids.len(), |j: int| joined(bodies[j][files_at[j]].chunks));
    assert forall|j: int| 0 <= j < lanes.len() implies on_course(
        #[trigger] lanes[j],
        shared,
        ids[j],
        paths[j],
        contents[j],
    ) by {
        lemma_arrival_is_on_course(ids[j], metadata[j], bodies[j], files_at[j], shared);
    }
    law_interleaving_keeps_uploads_on_course(lanes, shared, ids, paths, contents, schedule);
    let (now, end) = play(lanes, shared, schedule);
    assert(on_course(now[k], end, ids[k], paths[k], contents[k]));
    let file_path = paths[k];
    assert forall|j: int| 0 <= j < ids.len() && j != k implies #[trigger] path_of(
        ids[j],
        metadata[j],
        bodies[j],
        files_at[j],
    ) != file_path by {
        assert(is_canonical_id(ids[k]));
        assert(is_canonical_id(ids[j]));
        if j < k {
            assert(ids[j] != ids[k]);
        } else {
            assert(ids[k] != ids[j]);
        }
        law_distinct_ids_give_distinct_names(
            settle(metadata[j], bodies[j].take(files_at[j])).title,
            ids[j],
            settle(metadata[k], bodies[k].take(files_at[k])).title,
            ids[k],
        );
    }
}

/// The lanes of uploads that have just arrived.
pub open spec fn arrivals(
    ids: Seq<Seq<char>>,
    metadata: Seq<MetadataView>,
    bodies: Seq<Seq<Part>>,
) -> Seq<Lane> {
    Seq::new(ids.len(), |j: int| arrival(ids[j], metadata[j], bodies[j]))
}

/// The name under which an upload stores the file part at `i` of its body.
pub open spec fn path_of(
    demo_id: Seq<char>,
    metadata: MetadataView,
    body: Seq<Part>,
    i: int,
) -> Seq<char> {
    stored_name(settle(metadata, body.take(i)).title, demo_id)
}

} // verus!
