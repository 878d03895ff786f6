//! What holds of whole requests, proved of the sessions as they run against
//! the host of [`crate::model`].

use crate::ingest::{
    artist_name, field_named, file_field_name, ingest_start, ingest_step, record_of, title_name,
    user_id_name, with_field, Field, IngestPhase, IngestView,
};
use crate::lifecycle::{deleted_reply, removal_step, RemovalView};
use crate::model::{
    absorb, committed, drained, joined, react, row_of_demo, rows_of_demo, rows_of_user,
    rows_without_file, run, serve, settle, stored_file, text_of, upload_outcome, Part, World,
};
use crate::naming::{
    audio_url, is_canonical_id, law_distinct_ids_give_distinct_names, stored_name,
};
use crate::protocol::{ActionView, EventView, Failure, ReplyView};
use crate::retrieval::{audio_reply, retrieval_step, RetrievalView};
use crate::session::{session_open, session_step, RequestView, SessionView};
use crate::track::{info_of, infos_of, MetadataView, TrackInfoView, TrackView};
use vstd::prelude::*;
use vstd::utf8::decode_utf8;

verus! {

/// A part named `file` carries no scalar field.
pub proof fn lemma_file_is_no_field()
    ensures
        field_named(file_field_name()) is None,
{
    reveal_strlit("file");
    reveal_strlit("user_id");
    reveal_strlit("artist");
    reveal_strlit("title");
    assert(file_field_name().len() == 4);
    assert(user_id_name().len() == 7);
    assert(artist_name().len() == 6);
    assert(title_name().len() == 5);
}

/// Reading a scalar field to its end: the text of the chunks still pending
/// is joined to what was read, and the whole replaces the field.
proof fn lemma_field_is_read(s: IngestView, field: Field, w: World)
    requires
        s.phase == (IngestPhase::ReadingField { field }),
    ensures
        run(SessionView::Upload(s), ActionView::NextText, w) == run(
            SessionView::Upload(
                IngestView {
                    metadata: with_field(s.metadata, field, s.buffer + text_of(w.pending)),
                    buffer: Seq::empty(),
                    phase: IngestPhase::BetweenParts,
                    ..s
                },
            ),
            ActionView::NextPart,
            World { pending: Seq::empty(), ..w },
        ),
    decreases w.pending.len(),
{
    if w.pending.len() == 0 {
        assert(s.buffer + text_of(w.pending) =~= s.buffer);
        assert(w =~= World { pending: Seq::empty(), ..w });
    } else {
        let s1 = IngestView { buffer: s.buffer + decode_utf8(w.pending[0]), ..s };
        let w1 = World { pending: w.pending.drop_first(), ..w };
        assert(run(SessionView::Upload(s), ActionView::NextText, w) == run(
            SessionView::Upload(s1),
            ActionView::NextText,
            w1,
        ));
        lemma_field_is_read(s1, field, w1);
        assert(s1.buffer + text_of(w1.pending) =~= s.buffer + text_of(w.pending));
    }
}

/// Writing a file part to its end: the chunks still pending are appended to
/// the file in order.
proof fn lemma_file_is_written(s: IngestView, w: World)
    requires
        s.phase == IngestPhase::ReadingFile,
        w.files.dom().contains(s.file_path),
    ensures
        run(SessionView::Upload(s), ActionView::NextBytes, w) == run(
            SessionView::Upload(
                IngestView { stored: true, phase: IngestPhase::BetweenParts, ..s },
            ),
            ActionView::NextPart,
            World {
                files: w.files.insert(s.file_path, w.files[s.file_path] + joined(w.pending)),
                pending: Seq::empty(),
                ..w
            },
        ),
    decreases w.pending.len(),
{
    if w.pending.len() == 0 {
        assert(w.files[s.file_path] + joined(w.pending) =~= w.files[s.file_path]);
        assert(w.files.insert(s.file_path, w.files[s.file_path]) =~= w.files);
        assert(w =~= World {
            files: w.files.insert(s.file_path, w.files[s.file_path] + joined(w.pending)),
            pending: Seq::empty(),
            ..w
        });
    } else {
        let bytes = w.pending[0];
        let s1 = IngestView { phase: IngestPhase::Writing, ..s };
        let w1 = World { pending: w.pending.drop_first(), ..w };
        let a1 = ActionView::AppendFile { file_path: s.file_path, bytes };
        assert(run(SessionView::Upload(s), ActionView::NextBytes, w) == run(
            SessionView::Upload(s1),
            a1,
            w1,
        ));
        let w2 = World {
            files: w.files.insert(s.file_path, w.files[s.file_path] + bytes),
            ..w1
        };
        assert(run(SessionView::Upload(s1), a1, w1) == run(
            SessionView::Upload(s),
            ActionView::NextBytes,
            w2,
        ));
        lemma_file_is_written(s, w2);
        assert(w2.files[s.file_path] + joined(w2.pending) =~= w.files[s.file_path] + joined(
            w.pending,
        ));
        assert(w2.files.insert(s.file_path, w2.files[s.file_path] + joined(w2.pending))
            =~= w.files.insert(s.file_path, w.files[s.file_path] + joined(w.pending)));
    }
}

/// What an upload that stands between two parts comes to.
spec fn ingest_outcome(s: IngestView, w: World) -> (World, ReplyView) {
    let m = settle(s.metadata, w.body);
    if s.stored {
        committed(drained(w), s.demo_id, m, s.file_path)
    } else {
        match stored_file(s.metadata, s.demo_id, w.body) {
            Some((file_path, content)) => committed(
                World { files: w.files.insert(file_path, content), ..drained(w) },
                s.demo_id,
                m,
                file_path,
            ),
            None => (
                drained(w),
                ReplyView::Failed { failure: Failure::ClientInput, message: "File upload failed"@ },
            ),
        }
    }
}

/// Taking the parts of a body in turn comes to [`ingest_outcome`].
proof fn lemma_parts_are_taken(s: IngestView, w: World)
    requires
        s.phase == IngestPhase::BetweenParts,
    ensures
        run(SessionView::Upload(s), ActionView::NextPart, w) == ingest_outcome(s, w),
    decreases w.body.len(),
{
    let here = run(SessionView::Upload(s), ActionView::NextPart, w);
    if w.body.len() == 0 {
        assert(settle(s.metadata, w.body) == s.metadata);
        let w1 = World { pending: Seq::empty(), ..w };
        assert(w1 =~= drained(w));
        if s.stored {
            let s1 = IngestView { phase: IngestPhase::Recording, ..s };
            let a1 = ActionView::InsertRow { track: record_of(s) };
            assert(here == run(SessionView::Upload(s1), a1, w1));
            reveal_with_fuel(run, 3);
            assert(run(SessionView::Upload(s1), a1, w1) == committed(
                w1,
                s.demo_id,
                s.metadata,
                s.file_path,
            ));
        } else {
            reveal_with_fuel(run, 3);
        }
    } else {
        let part = w.body[0];
        let rest = w.body.drop_first();
        let w1 = World { body: rest, pending: part.chunks, ..w };
        assert(settle(s.metadata, w.body) == settle(absorb(s.metadata, part), rest));
        lemma_file_is_no_field();
        match field_named(part.name) {
            Some(field) => {
                let s1 = IngestView {
                    buffer: Seq::empty(),
                    phase: IngestPhase::ReadingField { field },
                    ..s
                };
                assert(here == run(SessionView::Upload(s1), ActionView::NextText, w1));
                lemma_field_is_read(s1, field, w1);
                assert(s1.buffer + text_of(w1.pending) =~= text_of(part.chunks));
                let s2 = IngestView {
                    metadata: absorb(s.metadata, part),
                    buffer: Seq::empty(),
                    phase: IngestPhase::BetweenParts,
                    ..s
                };
                let w2 = World { pending: Seq::empty(), ..w1 };
                assert(here == run(SessionView::Upload(s2), ActionView::NextPart, w2));
                lemma_parts_are_taken(s2, w2);
                assert(drained(w2) =~= drained(w));
                assert(part.name != file_field_name());
            },
            None => {
                if part.name == file_field_name() && !s.stored {
                    let file_path = stored_name(s.metadata.title, s.demo_id);
                    let s1 = IngestView { file_path, phase: IngestPhase::Creating, ..s };
                    let a1 = ActionView::CreateFile { file_path };
                    assert(here == run(SessionView::Upload(s1), a1, w1));
                    let s2 = IngestView { phase: IngestPhase::ReadingFile, ..s1 };
                    let w2 = World { files: w.files.insert(file_path, Seq::empty()), ..w1 };
                    assert(run(SessionView::Upload(s1), a1, w1) == run(
                        SessionView::Upload(s2),
                        ActionView::NextBytes,
                        w2,
                    ));
                    lemma_file_is_written(s2, w2);
                    let s3 = IngestView { stored: true, phase: IngestPhase::BetweenParts, ..s2 };
                    let content = joined(part.chunks);
                    let w3 = World {
                        files: w.files.insert(file_path, content),
                        pending: Seq::empty(),
                        ..w2
                    };
                    assert(w2.files[file_path] + joined(w2.pending) =~= content);
                    assert(w2.files.insert(file_path, w2.files[file_path] + joined(w2.pending))
                        =~= w3.files);
                    assert(here == run(SessionView::Upload(s3), ActionView::NextPart, w3));
                    lemma_parts_are_taken(s3, w3);
                    assert(drained(w3) =~= World {
                        files: w.files.insert(file_path, content),
                        ..drained(w)
                    });
                    assert(absorb(s.metadata, part) == s.metadata);
                } else {
                    assert(here == run(SessionView::Upload(s), ActionView::NextPart, w1));
                    lemma_parts_are_taken(s, w1);
                    assert(drained(w1) =~= drained(w));
                    assert(absorb(s.metadata, part) == s.metadata);
                }
            },
        }
    }
}

/// An upload comes to [`upload_outcome`], whatever the body holds.
pub proof fn law_upload_outcome(metadata: MetadataView, demo_id: Seq<char>, w: World)
    ensures
        serve(RequestView::Upload { metadata }, demo_id, w) == upload_outcome(
            metadata,
            demo_id,
            w,
        ),
{
    let s0 = ingest_start(demo_id, metadata);
    let s1 = IngestView { phase: IngestPhase::BetweenParts, ..s0 };
    assert(run(SessionView::Upload(s0), ActionView::EnsureDir, w) == run(
        SessionView::Upload(s1),
        ActionView::NextPart,
        w,
    ));
    lemma_parts_are_taken(s1, w);
}

/// Of each scalar field the last value stands: a part at the end of a body
/// is absorbed into what the parts before it settled.
pub proof fn law_last_value_stands(m: MetadataView, parts: Seq<Part>, part: Part)
    ensures
        settle(m, parts.push(part)) == absorb(settle(m, parts), part),
    decreases parts.len(),
{
    let all = parts.push(part);
    if parts.len() == 0 {
        assert(all.drop_first() =~= Seq::<Part>::empty());
        assert(settle(absorb(m, part), all.drop_first()) == absorb(m, part));
    } else {
        assert(all.drop_first() =~= parts.drop_first().push(part));
        law_last_value_stands(absorb(m, parts[0]), parts.drop_first(), part);
    }
}

/// Whether part `i` of a body is its first part named `file`.
pub open spec fn is_first_file(parts: Seq<Part>, i: int) -> bool {
    &&& 0 <= i < parts.len()
    &&& parts[i].name == file_field_name()
    &&& forall|j: int| 0 <= j < i ==> (#[trigger] parts[j]).name != file_field_name()
}

/// Whether no part of a body is named `file`.
pub open spec fn has_no_file(parts: Seq<Part>) -> bool {
    forall|j: int| 0 <= j < parts.len() ==> (#[trigger] parts[j]).name != file_field_name()
}

/// The file a body stores is its first part named `file`, under the name
/// derived from the title that the parts before it settled.
pub proof fn lemma_stored_file_is_first(
    m: MetadataView,
    demo_id: Seq<char>,
    parts: Seq<Part>,
    i: int,
)
    requires
        is_first_file(parts, i),
    ensures
        stored_file(m, demo_id, parts) == Some(
            (stored_name(settle(m, parts.take(i)).title, demo_id), joined(parts[i].chunks)),
        ),
    decreases i,
{
    if i == 0 {
        assert(parts.take(0) =~= Seq::<Part>::empty());
    } else {
        let rest = parts.drop_first();
        assert(parts[0].name != file_field_name());
        assert forall|j: int| 0 <= j < i - 1 implies (#[trigger] rest[j]).name
            != file_field_name() by {
            assert(rest[j] == parts[j + 1]);
        }
        lemma_stored_file_is_first(absorb(m, parts[0]), demo_id, rest, i - 1);
        assert(parts.take(i).drop_first() =~= rest.take(i - 1));
        assert(parts.take(i)[0] == parts[0]);
    }
}

/// A body without a part named `file` stores no file.
pub proof fn lemma_no_file_is_stored(m: MetadataView, demo_id: Seq<char>, parts: Seq<Part>)
    requires
        has_no_file(parts),
    ensures
        stored_file(m, demo_id, parts) is None,
    decreases parts.len(),
{
    if parts.len() > 0 {
        let rest = parts.drop_first();
        assert(parts[0].name != file_field_name());
        assert forall|j: int| 0 <= j < rest.len() implies (#[trigger] rest[j]).name
            != file_field_name() by {
            assert(rest[j] == parts[j + 1]);
        }
        lemma_no_file_is_stored(absorb(m, parts[0]), demo_id, rest);
    }
}

/// An upload with a file part succeeds. The file holds the bytes of the
/// first part named `file`, in the order of arrival, under a name made of
/// the title as it stood when that part began and of the demo identifier.
/// One record is added, with the scalar fields as the whole body settled
/// them. The answer carries the demo identifier and the URL of the file.
pub proof fn law_upload_stores_the_file(
    metadata: MetadataView,
    demo_id: Seq<char>,
    w: World,
    i: int,
)
    requires
        is_first_file(w.body, i),
    ensures
        serve(RequestView::Upload { metadata }, demo_id, w) == committed(
            World {
                files: w.files.insert(
                    stored_name(settle(metadata, w.body.take(i)).title, demo_id),
                    joined(w.body[i].chunks),
                ),
                ..drained(w)
            },
            demo_id,
            settle(metadata, w.body),
            stored_name(settle(metadata, w.body.take(i)).title, demo_id),
        ),
        serve(RequestView::Upload { metadata }, demo_id, w).1.code() == 200,
{
    law_upload_outcome(metadata, demo_id, w);
    lemma_stored_file_is_first(metadata, demo_id, w.body, i);
}

/// An upload whose file part holds no bytes still succeeds: it leaves an
/// empty file and one more record.
pub proof fn law_empty_file_is_stored(
    metadata: MetadataView,
    demo_id: Seq<char>,
    w: World,
    i: int,
)
    requires
        is_first_file(w.body, i),
        joined(w.body[i].chunks).len() == 0,
    ensures
        ({
            let (after, reply) = serve(RequestView::Upload { metadata }, demo_id, w);
            let file_path = stored_name(settle(metadata, w.body.take(i)).title, demo_id);
            &&& reply is Uploaded
            &&& after.files.dom().contains(file_path)
            &&& after.files[file_path] == Seq::<u8>::empty()
            &&& after.rows.len() == w.rows.len() + 1
            &&& after.rows.last().file_path == file_path
        }),
{
    law_upload_stores_the_file(metadata, demo_id, w, i);
    assert(joined(w.body[i].chunks) =~= Seq::<u8>::empty());
}

/// An upload without a file part is refused as a client error, and leaves
/// the records and the files as they were.
pub proof fn law_upload_without_file_is_refused(
    metadata: MetadataView,
    demo_id: Seq<char>,
    w: World,
)
    requires
        has_no_file(w.body),
    ensures
        serve(RequestView::Upload { metadata }, demo_id, w) == (
            drained(w),
            ReplyView::Failed { failure: Failure::ClientInput, message: "File upload failed"@ },
        ),
        serve(RequestView::Upload { metadata }, demo_id, w).1.code() == 400,
        drained(w).rows == w.rows,
        drained(w).files == w.files,
{
    law_upload_outcome(metadata, demo_id, w);
    lemma_no_file_is_stored(metadata, demo_id, w.body);
}

/// Listing answers with the records of the owner, by their public faces and
/// in the order of the store, and changes nothing. Without an owner the
/// request is refused as a client error.
pub proof fn law_list_tracks(user_id: Option<Seq<char>>, demo_id: Seq<char>, w: World)
    ensures
        serve(RequestView::ListTracks { user_id }, demo_id, w) == (
            w,
            match user_id {
                Some(user_id) => ReplyView::Tracks {
                    tracks: infos_of(rows_of_user(w.rows, user_id)),
                },
                None => ReplyView::Failed {
                    failure: Failure::ClientInput,
                    message: "Missing user_id in headers"@,
                },
            },
        ),
        user_id is None ==> serve(RequestView::ListTracks { user_id }, demo_id, w).1.code() == 400,
{
    reveal_with_fuel(run, 3);
}

/// The records listed for an owner are exactly the records of the store
/// that carry this owner: each of them, and no other.
pub proof fn law_listing_is_exact(rows: Seq<TrackView>, user_id: Seq<char>)
    ensures
        forall|t: TrackView| #[trigger]
            rows_of_user(rows, user_id).contains(t) <==> rows.contains(t) && t.user_id == user_id,
        infos_of(rows_of_user(rows, user_id)).len() == rows_of_user(rows, user_id).len(),
{
    let owned = |t: TrackView| t.user_id == user_id;
    let listed = rows_of_user(rows, user_id);
    assert forall|t: TrackView| #[trigger] listed.contains(t) implies rows.contains(t)
        && t.user_id == user_id by {
        rows.lemma_filter_contains_rev(owned, t);
        let i = choose|i: int| 0 <= i < listed.len() && listed[i] == t;
        rows.lemma_filter_pred(owned, i);
    }
    assert forall|t: TrackView| rows.contains(t) && t.user_id == user_id implies #[trigger]
        listed.contains(t) by {
        let i = choose|i: int| 0 <= i < rows.len() && rows[i] == t;
        rows.lemma_filter_contains(owned, i);
    }
}

/// A stored upload is listed for the owner it was uploaded with, after the
/// records that owner had, and for no other owner.
pub proof fn law_upload_is_listed_for_its_owner(
    metadata: MetadataView,
    demo_id: Seq<char>,
    w: World,
    i: int,
    user_id: Seq<char>,
)
    requires
        is_first_file(w.body, i),
    ensures
        ({
            let after = serve(RequestView::Upload { metadata }, demo_id, w).0;
            let settled = settle(metadata, w.body);
            rows_of_user(after.rows, user_id) == if settled.user_id == user_id {
                rows_of_user(w.rows, user_id).push(after.rows.last())
            } else {
                rows_of_user(w.rows, user_id)
            }
        }),
        ({
            let after = serve(RequestView::Upload { metadata }, demo_id, w).0;
            let settled = settle(metadata, w.body);
            &&& after.rows.last().user_id == settled.user_id
            &&& after.rows.last().artist == settled.artist
            &&& after.rows.last().title == settled.title
            &&& after.rows.last().demo_id == demo_id
        }),
{
    law_upload_stores_the_file(metadata, demo_id, w, i);
    let after = serve(RequestView::Upload { metadata }, demo_id, w).0;
    let track = after.rows.last();
    assert(after.rows == w.rows.push(track));
    w.rows.lemma_filter_push(track, |t: TrackView| t.user_id == user_id);
}

/// Streaming by name answers with the bytes of the file if it is in the
/// upload directory, and is not found otherwise. The store plays no part,
/// and nothing changes.
pub proof fn law_stream_audio(file_path: Seq<char>, demo_id: Seq<char>, w: World)
    ensures
        serve(RequestView::StreamAudio { file_path }, demo_id, w) == (
            w,
            if w.files.dom().contains(file_path) {
                audio_reply(w.files[file_path])
            } else {
                ReplyView::Failed { failure: Failure::NotFound, message: "File not found"@ }
            },
        ),
        !w.files.dom().contains(file_path) ==> serve(
            RequestView::StreamAudio { file_path },
            demo_id,
            w,
        ).1.code() == 404,
{
    reveal_with_fuel(run, 4);
}

/// Streaming by demo identifier answers with the bytes of the file of the
/// oldest record with that identifier. It is not found if there is no such
/// record, or if the file of the record is missing.
pub proof fn law_stream_demo(id: Seq<char>, demo_id: Seq<char>, w: World)
    ensures
        serve(RequestView::StreamDemo { demo_id: id }, demo_id, w) == (
            w,
            match row_of_demo(w.rows, id) {
                Some(track) => if w.files.dom().contains(track.file_path) {
                    audio_reply(w.files[track.file_path])
                } else {
                    ReplyView::Failed { failure: Failure::NotFound, message: "File not found"@ }
                },
                None => ReplyView::Failed {
                    failure: Failure::NotFound,
                    message: "Demo not found"@,
                },
            },
        ),
{
    reveal_with_fuel(run, 5);
}

/// Asking for the details of a demo identifier answers with the public face
/// of the oldest record with that identifier, and is not found if there is
/// none.
pub proof fn law_demo_details(id: Seq<char>, demo_id: Seq<char>, w: World)
    ensures
        serve(RequestView::DemoDetails { demo_id: id }, demo_id, w) == (
            w,
            match row_of_demo(w.rows, id) {
                Some(track) => ReplyView::Details { track: info_of(track) },
                None => ReplyView::Failed {
                    failure: Failure::NotFound,
                    message: "Demo not found"@,
                },
            },
        ),
{
    reveal_with_fuel(run, 3);
}

/// Round trip. After an upload under a demo identifier that no record
/// carried before, the details of that identifier show the artist and the
/// title that were uploaded and the URL that the upload was answered with,
/// and both the file behind that URL and the demo identifier itself stream
/// the very bytes that were uploaded.
pub proof fn law_round_trip(metadata: MetadataView, demo_id: Seq<char>, w: World, i: int)
    requires
        is_first_file(w.body, i),
        row_of_demo(w.rows, demo_id) is None,
    ensures
        ({
            let (after, reply) = serve(RequestView::Upload { metadata }, demo_id, w);
            let settled = settle(metadata, w.body);
            let file_path = stored_name(settle(metadata, w.body.take(i)).title, demo_id);
            let uploaded = joined(w.body[i].chunks);
            &&& reply matches ReplyView::Uploaded { receipt }
            &&& receipt.demo_id == demo_id
            &&& receipt.file_url == audio_url(file_path)
            &&& serve(RequestView::DemoDetails { demo_id: receipt.demo_id }, demo_id, after) == (
                after,
                ReplyView::Details {
                    track: TrackInfoView {
                        artist: settled.artist,
                        title: settled.title,
                        file_url: receipt.file_url,
                        demo_id,
                    },
                },
            )
            &&& serve(RequestView::StreamAudio { file_path }, demo_id, after) == (
                after,
                audio_reply(uploaded),
            )
            &&& serve(RequestView::StreamDemo { demo_id: receipt.demo_id }, demo_id, after) == (
                after,
                audio_reply(uploaded),
            )
        }),
{
    law_upload_stores_the_file(metadata, demo_id, w, i);
    let (after, reply) = serve(RequestView::Upload { metadata }, demo_id, w);
    let track = after.rows.last();
    assert(after.rows == w.rows.push(track));
    w.rows.lemma_filter_push(track, |t: TrackView| t.demo_id == demo_id);
    assert(rows_of_demo(w.rows, demo_id).len() == 0);
    assert(rows_of_demo(after.rows, demo_id) == rows_of_demo(w.rows, demo_id).push(track));
    assert(row_of_demo(after.rows, demo_id) == Some(track));
    law_demo_details(demo_id, demo_id, after);
    law_stream_audio(track.file_path, demo_id, after);
    law_stream_demo(demo_id, demo_id, after);
}

/// Deleting a file that is not in the upload directory is not found and
/// changes nothing: no record is removed, and nothing else fails. So it is
/// with every repetition.
pub proof fn law_delete_of_missing_file(file_path: Seq<char>, demo_id: Seq<char>, w: World)
    requires
        !w.files.dom().contains(file_path),
    ensures
        serve(RequestView::DeleteAudio { file_path }, demo_id, w) == (
            w,
            ReplyView::Failed { failure: Failure::NotFound, message: "File not found"@ },
        ),
        serve(RequestView::DeleteAudio { file_path }, demo_id, w).1.code() == 404,
{
    reveal_with_fuel(run, 3);
}

/// Deleting a file that is in the upload directory removes the file and
/// every record of it, and nothing else.
pub proof fn law_delete(file_path: Seq<char>, demo_id: Seq<char>, w: World)
    requires
        w.files.dom().contains(file_path),
    ensures
        serve(RequestView::DeleteAudio { file_path }, demo_id, w) == (
            World {
                files: w.files.remove(file_path),
                rows: rows_without_file(w.rows, file_path),
                ..w
            },
            deleted_reply(),
        ),
        serve(RequestView::DeleteAudio { file_path }, demo_id, w).1.code() == 200,
{
    reveal_with_fuel(run, 5);
}

/// What was deleted is gone: the file is no longer streamed, no owner is
/// listed a record of it, and deleting it once more is not found and
/// changes nothing.
pub proof fn law_deleted_is_gone(
    file_path: Seq<char>,
    demo_id: Seq<char>,
    w: World,
    user_id: Seq<char>,
)
    requires
        w.files.dom().contains(file_path),
    ensures
        ({
            let after = serve(RequestView::DeleteAudio { file_path }, demo_id, w).0;
            &&& serve(RequestView::StreamAudio { file_path }, demo_id, after) == (
                after,
                ReplyView::Failed { failure: Failure::NotFound, message: "File not found"@ },
            )
            &&& forall|t: TrackView| #[trigger]
                rows_of_user(after.rows, user_id).contains(t) ==> t.file_path != file_path
            &&& serve(RequestView::DeleteAudio { file_path }, demo_id, after) == (
                after,
                ReplyView::Failed { failure: Failure::NotFound, message: "File not found"@ },
            )
        }),
{
    law_delete(file_path, demo_id, w);
    let after = serve(RequestView::DeleteAudio { file_path }, demo_id, w).0;
    law_stream_audio(file_path, demo_id, after);
    law_delete_of_missing_file(file_path, demo_id, after);
    let listed = rows_of_user(after.rows, user_id);
    assert forall|t: TrackView| #[trigger] listed.contains(t) implies t.file_path
        != file_path by {
        after.rows.lemma_filter_contains_rev(|t: TrackView| t.user_id == user_id, t);
        let kept = |t: TrackView| t.file_path != file_path;
        let j = choose|j: int| 0 <= j < after.rows.len() && after.rows[j] == t;
        w.rows.lemma_filter_pred(kept, j);
    }
}

/// Whether an action creates, extends or deletes the file `file_path`.
pub open spec fn touches(a: ActionView, file_path: Seq<char>) -> bool {
    match a {
        ActionView::CreateFile { file_path: touched } => touched == file_path,
        ActionView::AppendFile { file_path: touched, .. } => touched == file_path,
        ActionView::RemoveFile { file_path: touched } => touched == file_path,
        _ => false,
    }
}

/// An action leaves every file alone that it does not touch: the file is
/// there or not as before, with the content it had.
pub proof fn law_untouched_files_stay(w: World, a: ActionView, file_path: Seq<char>)
    requires
        !touches(a, file_path),
    ensures
        react(w, a).0.files.dom().contains(file_path) == w.files.dom().contains(file_path),
        react(w, a).0.files[file_path] == w.files[file_path],
{
}

/// Whether `file_path` is a name that an upload under `demo_id` gives its
/// file, for some title.
pub open spec fn is_name_under(file_path: Seq<char>, demo_id: Seq<char>) -> bool {
    exists|title: Seq<char>| file_path == #[trigger] stored_name(title, demo_id)
}

/// Whether an upload that is at work on a file has it under a name made of
/// its own demo identifier.
pub open spec fn keeps_to_its_file(s: IngestView) -> bool {
    s.phase == IngestPhase::Creating || s.phase == IngestPhase::ReadingFile || s.phase
        == IngestPhase::Writing ==> is_name_under(s.file_path, s.demo_id)
}

/// An upload never touches a file but its own: from its start on, the only
/// files it creates or extends are named with its own demo identifier, and
/// it deletes none. Its demo identifier never changes.
pub proof fn law_upload_keeps_to_its_file(s: IngestView, e: EventView)
    requires
        keeps_to_its_file(s),
    ensures
        keeps_to_its_file(ingest_step(s, e).0),
        ingest_step(s, e).0.demo_id == s.demo_id,
        !(ingest_step(s, e).1 is RemoveFile),
        forall|file_path: Seq<char>| #[trigger]
            touches(ingest_step(s, e).1, file_path) ==> is_name_under(file_path, s.demo_id),
        forall|demo_id: Seq<char>, metadata: MetadataView| #[trigger]
            keeps_to_its_file(ingest_start(demo_id, metadata)),
{
    let (next, a) = ingest_step(s, e);
    let own = stored_name(s.metadata.title, s.demo_id);
    assert(is_name_under(own, s.demo_id));
    assert(next.demo_id == s.demo_id);
    assert(next.file_path == s.file_path || next.file_path == own);
    assert(next.file_path != s.file_path ==> s.phase == IngestPhase::BetweenParts);
    assert(keeps_to_its_file(next)) by {
        if next.phase == IngestPhase::Creating || next.phase == IngestPhase::ReadingFile
            || next.phase == IngestPhase::Writing {
            if s.phase == IngestPhase::BetweenParts {
                assert(next.phase == IngestPhase::Creating);
                assert(next.file_path == own);
            } else {
                assert(next.file_path == s.file_path);
            }
        }
    }
    assert forall|file_path: Seq<char>| #[trigger] touches(a, file_path) implies is_name_under(
        file_path,
        s.demo_id,
    ) by {
        if a is CreateFile {
            assert(file_path == own);
        } else {
            assert(a is AppendFile);
            assert(s.phase == IngestPhase::ReadingFile);
            assert(file_path == s.file_path);
        }
    }
}

/// Uploads under different demo identifiers never touch the same file,
/// however their steps are interleaved: none overwrites another's bytes.
pub proof fn law_uploads_do_not_meet(
    s: IngestView,
    e: EventView,
    other: IngestView,
    other_e: EventView,
    file_path: Seq<char>,
)
    requires
        keeps_to_its_file(s),
        keeps_to_its_file(other),
        is_canonical_id(s.demo_id),
        is_canonical_id(other.demo_id),
        s.demo_id != other.demo_id,
    ensures
        !(touches(ingest_step(s, e).1, file_path) && touches(
            ingest_step(other, other_e).1,
            file_path,
        )),
{
    law_upload_keeps_to_its_file(s, e);
    law_upload_keeps_to_its_file(other, other_e);
    if touches(ingest_step(s, e).1, file_path) && touches(
        ingest_step(other, other_e).1,
        file_path,
    ) {
        assert(is_name_under(file_path, s.demo_id));
        assert(is_name_under(file_path, other.demo_id));
        let title = choose|title: Seq<char>|
            file_path == #[trigger] stored_name(title, s.demo_id);
        let other_title = choose|title: Seq<char>|
            file_path == #[trigger] stored_name(title, other.demo_id);
        law_distinct_ids_give_distinct_names(title, s.demo_id, other_title, other.demo_id);
    }
}

/// Two uploads under different demo identifiers, one after the other, leave
/// two files and two records: each file holds what its upload sent, and the
/// records stand in the order of the uploads.
pub proof fn law_uploads_keep_apart(
    metadata: MetadataView,
    demo_id: Seq<char>,
    w: World,
    i: int,
    other_metadata: MetadataView,
    other_id: Seq<char>,
    other_body: Seq<Part>,
    other_i: int,
)
    requires
        is_first_file(w.body, i),
        is_first_file(other_body, other_i),
        is_canonical_id(demo_id),
        is_canonical_id(other_id),
        demo_id != other_id,
    ensures
        ({
            let first = serve(RequestView::Upload { metadata }, demo_id, w).0;
            let second = serve(
                RequestView::Upload { metadata: other_metadata },
                other_id,
                World { body: other_body, ..first },
            ).0;
            let file_path = stored_name(settle(metadata, w.body.take(i)).title, demo_id);
            let other_path = stored_name(
                settle(other_metadata, other_body.take(other_i)).title,
                other_id,
            );
            &&& file_path != other_path
            &&& second.files.dom().contains(file_path)
            &&& second.files.dom().contains(other_path)
            &&& second.files[file_path] == joined(w.body[i].chunks)
            &&& second.files[other_path] == joined(other_body[other_i].chunks)
            &&& second.rows.len() == w.rows.len() + 2
            &&& second.rows[w.rows.len() as int].demo_id == demo_id
            &&& second.rows[w.rows.len() as int + 1].demo_id == other_id
        }),
{
    law_upload_stores_the_file(metadata, demo_id, w, i);
    let first = serve(RequestView::Upload { metadata }, demo_id, w).0;
    law_upload_stores_the_file(
        other_metadata,
        other_id,
        World { body: other_body, ..first },
        other_i,
    );
    law_distinct_ids_give_distinct_names(
        settle(metadata, w.body.take(i)).title,
        demo_id,
        settle(other_metadata, other_body.take(other_i)).title,
        other_id,
    );
}

/// Whether an event reports a failure of the directory, a file, the request
/// body or the store.
pub open spec fn is_failure(e: EventView) -> bool {
    e is IoFailed || e is StoreFailed
}

/// Failures are terminal: whatever a session is at, a reported failure ends
/// it with a server error. Nothing is retried, and nothing more is asked of
/// the host.
pub proof fn law_failures_are_terminal(s: SessionView, e: EventView)
    requires
        is_failure(e),
    ensures
        session_step(s, e).0.is_closed(),
        session_step(s, e).1 matches ActionView::Respond { reply } && reply.code() == 500,
{
}

/// A session is closed exactly when it has answered: its first action and
/// every later one is an answer if and only if the session is closed after
/// it. Once closed it stays closed.
pub proof fn law_answered_means_closed(
    request: RequestView,
    demo_id: Seq<char>,
    s: SessionView,
    e: EventView,
)
    ensures
        session_open(request, demo_id).1 is Respond <==> session_open(
            request,
            demo_id,
        ).0.is_closed(),
        session_step(s, e).1 is Respond <==> session_step(s, e).0.is_closed(),
        s.is_closed() ==> session_step(s, e).0.is_closed(),
{
}

/// The record follows the file: an upload asks for its record only when a
/// file part was written to its end, and the record names that file.
pub proof fn law_record_follows_the_file(s: IngestView, e: EventView)
    ensures
        ingest_step(s, e).1 matches ActionView::InsertRow { track } ==> s.stored && track
            == record_of(s) && track.file_path == s.file_path && track.demo_id == s.demo_id,
{
}

/// The file goes first: a delete asks the store to forget a file only on the
/// report that the file was deleted, and only that file.
pub proof fn law_file_goes_first(s: RemovalView, e: EventView)
    ensures
        removal_step(s, e).1 matches ActionView::DeleteByPath { file_path } ==> e is FileRemoved
            && s == (RemovalView::Removing { file_path }),
        removal_step(s, e).1 matches ActionView::RemoveFile { file_path } ==> e
            == (EventView::FileExists { exists: true }) && s == (RemovalView::Probing {
            file_path,
        }),
{
}

/// Reading changes nothing: no read request ever asks to create, extend or
/// delete a file, or to add or delete a record.
pub proof fn law_reads_change_nothing(s: RetrievalView, e: EventView, w: World)
    ensures
        ({
            let a = retrieval_step(s, e).1;
            &&& react(w, a).0.rows == w.rows
            &&& react(w, a).0.files == w.files
        }),
{
}

} // verus!
