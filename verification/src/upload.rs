//! The upload of one field from beginning to end, where creating the file
//! and writing to it succeed: what is stored, and what is answered.

use crate::media::{declared_class, extension_text, ImageKind, MediaClass};
use crate::naming::{
    asset_name_text, is_identifier_text, is_plain_name, lemma_asset_name_is_plain,
    lemma_asset_names_differ, lemma_reference_ends_in_extension, lemma_reference_paths_differ,
    reference_text,
};
use crate::outcome::{OutcomeView, UploadError};
use crate::session::{finished, initial, ActionView, EventView, SessionView, Stage};
use crate::trace::{
    created, lemma_effects_concat, lemma_effects_cons, lemma_finished_is_final, lemma_run_concat,
    lemma_run_creates_once, lemma_run_one, responses, run, written,
};
use vstd::prelude::*;

verus! {

/// What the host reports while it streams `chunks`: each chunk, and then
/// that it has been written.
pub open spec fn chunk_events(chunks: Seq<Seq<u8>>) -> Seq<EventView>
    decreases chunks.len(),
{
    if chunks.len() == 0 {
        Seq::empty()
    } else {
        seq![EventView::Chunk(chunks[0]), EventView::ChunkWritten] + chunk_events(
            chunks.drop_first(),
        )
    }
}

/// What the host reports for a body whose first field declares
/// `content_type` and arrives as `chunks`.
pub open spec fn upload_events(content_type: Option<Seq<char>>, chunks: Seq<Seq<u8>>) -> Seq<
    EventView,
> {
    seq![EventView::Field(content_type), EventView::FileCreated] + chunk_events(chunks)
        + seq![EventView::EndOfField]
}

/// How many of `chunks`, from the first on, fit into `room` bytes together.
pub open spec fn fitting(chunks: Seq<Seq<u8>>, room: nat) -> int
    decreases chunks.len(),
{
    if chunks.len() == 0 || chunks[0].len() > room {
        0
    } else {
        1 + fitting(chunks.drop_first(), (room - chunks[0].len()) as nat)
    }
}

/// The chunks that fit are the longest run of leading chunks that stays
/// within `room`: they do, and with the next chunk they would not. All
/// chunks fit exactly if the whole field stays within `room`.
pub proof fn lemma_fitting(chunks: Seq<Seq<u8>>, room: nat)
    ensures
        0 <= fitting(chunks, room) <= chunks.len(),
        chunks.take(fitting(chunks, room)).flatten().len() <= room,
        fitting(chunks, room) < chunks.len() ==> chunks.take(
            fitting(chunks, room) + 1,
        ).flatten().len() > room,
        fitting(chunks, room) == chunks.len() <==> chunks.flatten().len() <= room,
    decreases chunks.len(),
{
    let n = fitting(chunks, room);
    if chunks.len() == 0 {
        assert(chunks.take(0) =~= chunks);
    } else if chunks[0].len() > room {
        assert(chunks.take(0).len() == 0);
        let one = chunks.take(1);
        assert(one.first() == chunks[0]);
        assert(chunks.flatten().len() >= chunks[0].len());
    } else {
        let rest = chunks.drop_first();
        let left = (room - chunks[0].len()) as nat;
        let m = fitting(rest, left);
        lemma_fitting(rest, left);
        let taken = chunks.take(n);
        assert(taken.first() == chunks[0]);
        assert(taken.drop_first() =~= rest.take(m));
        if n < chunks.len() {
            let more = chunks.take(n + 1);
            assert(more.first() == chunks[0]);
            assert(more.drop_first() =~= rest.take(m + 1));
        }
    }
}

/// The chunk phase. From a session that waits for a chunk, the chunks that
/// fit into what is left under the ceiling are appended, in order and
/// nothing else. If all fit the session waits for the next chunk; if not,
/// it has answered that the payload is too large.
pub proof fn lemma_chunks(s: SessionView, chunks: Seq<Seq<u8>>, id: Seq<char>)
    requires
        s.stage == Stage::Receiving,
        s.received <= s.limit,
    ensures
        ({
            let r = run(s, chunk_events(chunks), id);
            let n = fitting(chunks, (s.limit - s.received) as nat);
            &&& written(r.actions) == chunks.take(n).flatten()
            &&& created(r.actions) == Seq::<Seq<char>>::empty()
            &&& n == chunks.len() ==> r.state == (SessionView {
                received: s.received + chunks.flatten().len(),
                ..s
            }) && responses(r.actions) == Seq::<OutcomeView>::empty()
            &&& n < chunks.len() ==> r.state == finished(
                SessionView { received: s.received + chunks.take(n).flatten().len(), ..s },
            ) && responses(r.actions) == seq![OutcomeView::Failed(UploadError::PayloadTooLarge)]
        }),
    decreases chunks.len(),
{
    let room = (s.limit - s.received) as nat;
    let n = fitting(chunks, room);
    let events = chunk_events(chunks);
    if chunks.len() == 0 {
        assert(chunks.take(0) =~= chunks);
    } else {
        let rest = chunks.drop_first();
        let pair = seq![EventView::Chunk(chunks[0]), EventView::ChunkWritten];
        let first = seq![EventView::Chunk(chunks[0])];
        let second = seq![EventView::ChunkWritten];
        assert(pair =~= first + second);
        lemma_run_concat(s, pair, chunk_events(rest), id);
        lemma_run_concat(s, first, second, id);
        lemma_run_one(s, EventView::Chunk(chunks[0]), id);
        let mid = run(s, first, id);
        lemma_run_one(mid.state, EventView::ChunkWritten, id);
        let two = run(s, pair, id);
        if chunks[0].len() > room {
            assert(chunks.take(0).len() == 0);
            lemma_finished_is_final(two.state, chunk_events(rest), id);
            let outcome = OutcomeView::Failed(UploadError::PayloadTooLarge);
            assert(two.actions =~= seq![ActionView::Respond(outcome)]);
            lemma_effects_cons(ActionView::Respond(outcome), Seq::empty());
            assert(run(s, events, id).actions =~= seq![ActionView::Respond(outcome)] + Seq::<
                ActionView,
            >::empty());
        } else {
            let left = (room - chunks[0].len()) as nat;
            let m = fitting(rest, left);
            lemma_fitting(rest, left);
            lemma_chunks(two.state, rest, id);
            let tail = run(two.state, chunk_events(rest), id);
            assert(two.actions =~= seq![ActionView::Write(chunks[0])] + seq![
                ActionView::NextChunk,
            ]);
            lemma_effects_cons(ActionView::NextChunk, Seq::empty());
            lemma_effects_cons(ActionView::Write(chunks[0]), seq![ActionView::NextChunk]);
            lemma_effects_concat(two.actions, tail.actions);
            let taken = chunks.take(n);
            assert(taken.first() == chunks[0]);
            assert(taken.drop_first() =~= rest.take(m));
            assert(written(two.actions) =~= chunks[0]);
            assert(written(run(s, events, id).actions) =~= taken.flatten());
            assert(created(run(s, events, id).actions) =~= Seq::<Seq<char>>::empty());
            if m == rest.len() {
                assert(responses(run(s, events, id).actions) =~= Seq::<OutcomeView>::empty());
            } else {
                assert(responses(run(s, events, id).actions) =~= seq![
                    OutcomeView::Failed(UploadError::PayloadTooLarge),
                ]);
            }
        }
    }
}

/// The opening of an upload. For a field of an accepted format the session
/// asks for the file, named by the identifier and the format, and then for
/// the first chunk.
proof fn lemma_opening(limit: nat, content_type: Option<Seq<char>>, kind: ImageKind, id: Seq<char>)
    requires
        declared_class(content_type) == MediaClass::Accepted(kind),
    ensures
        ({
            let name = asset_name_text(id, kind);
            let r = run(
                initial(limit),
                seq![EventView::Field(content_type), EventView::FileCreated],
                id,
            );
            &&& r.state == (SessionView { stage: Stage::Receiving, name, ..initial(limit) })
            &&& r.actions == seq![ActionView::CreateFile(name), ActionView::NextChunk]
        }),
{
    let first = seq![EventView::Field(content_type)];
    let second = seq![EventView::FileCreated];
    assert(seq![EventView::Field(content_type), EventView::FileCreated] =~= first + second);
    lemma_run_concat(initial(limit), first, second, id);
    lemma_run_one(initial(limit), EventView::Field(content_type), id);
    lemma_run_one(run(initial(limit), first, id).state, EventView::FileCreated, id);
    let name = asset_name_text(id, kind);
    assert(run(initial(limit), first + second, id).actions =~= seq![
        ActionView::CreateFile(name),
        ActionView::NextChunk,
    ]);
}

/// What the two opening actions do: they create the file and nothing more.
proof fn lemma_opening_effects(name: Seq<char>)
    ensures
        ({
            let actions = seq![ActionView::CreateFile(name), ActionView::NextChunk];
            &&& created(actions) == seq![name]
            &&& written(actions) == Seq::<u8>::empty()
            &&& responses(actions) == Seq::<OutcomeView>::empty()
        }),
{
    let actions = seq![ActionView::CreateFile(name), ActionView::NextChunk];
    assert(actions =~= seq![ActionView::CreateFile(name)] + seq![ActionView::NextChunk]);
    lemma_effects_cons(ActionView::NextChunk, Seq::empty());
    lemma_effects_cons(ActionView::CreateFile(name), seq![ActionView::NextChunk]);
    assert(seq![ActionView::NextChunk] + Seq::<ActionView>::empty() =~= seq![
        ActionView::NextChunk,
    ]);
    assert(created(actions) =~= seq![name]);
    assert(written(actions) =~= Seq::<u8>::empty());
}

/// A field of an unsupported type is refused at once: whatever follows it,
/// the one thing the session asks for is the response that the media type
/// is unsupported. No file is created and nothing is written.
pub proof fn lemma_unsupported_is_refused(
    limit: nat,
    content_type: Option<Seq<char>>,
    rest: Seq<EventView>,
    id: Seq<char>,
)
    requires
        declared_class(content_type) == MediaClass::Unsupported,
    ensures
        ({
            let r = run(initial(limit), seq![EventView::Field(content_type)] + rest, id);
            let refusal = OutcomeView::Failed(UploadError::UnsupportedMediaType);
            &&& r.actions == seq![ActionView::Respond(refusal)]
            &&& r.state == finished(initial(limit))
            &&& created(r.actions) == Seq::<Seq<char>>::empty()
            &&& written(r.actions) == Seq::<u8>::empty()
            &&& responses(r.actions) == seq![refusal]
        }),
{
    let first = seq![EventView::Field(content_type)];
    let refusal = ActionView::Respond(OutcomeView::Failed(UploadError::UnsupportedMediaType));
    lemma_run_concat(initial(limit), first, rest, id);
    lemma_run_one(initial(limit), EventView::Field(content_type), id);
    lemma_finished_is_final(finished(initial(limit)), rest, id);
    let r = run(initial(limit), first + rest, id);
    assert(r.actions =~= seq![refusal]);
    lemma_effects_cons(refusal, Seq::empty());
    assert(seq![refusal] + Seq::<ActionView>::empty() =~= seq![refusal]);
    assert(created(r.actions) =~= Seq::<Seq<char>>::empty());
    assert(written(r.actions) =~= Seq::<u8>::empty());
    assert(responses(r.actions) =~= seq![OutcomeView::Failed(UploadError::UnsupportedMediaType)]);
}

/// A field of an accepted format that stays within the ceiling is stored
/// whole. One file is created, named by the identifier and the extension
/// of the format; the bytes appended to it are the bytes of the field, in
/// the order in which they came; and the answer is the reference path of
/// that file, which ends in a dot and the extension of the format. A field
/// of exactly the ceiling's size is within it.
pub proof fn lemma_upload_is_stored(
    limit: nat,
    content_type: Option<Seq<char>>,
    kind: ImageKind,
    chunks: Seq<Seq<u8>>,
    id: Seq<char>,
)
    requires
        declared_class(content_type) == MediaClass::Accepted(kind),
        chunks.flatten().len() <= limit,
    ensures
        ({
            let r = run(initial(limit), upload_events(content_type, chunks), id);
            let name = asset_name_text(id, kind);
            let path = reference_text(name);
            &&& r.state.stage == Stage::Finished
            &&& created(r.actions) == seq![name]
            &&& written(r.actions) == chunks.flatten()
            &&& responses(r.actions) == seq![OutcomeView::Stored(path)]
            &&& path.subrange(path.len() - 4, path.len() as int) == seq!['.'] + extension_text(kind)
        }),
{
    let name = asset_name_text(id, kind);
    lemma_reference_ends_in_extension(id, kind);
    let opening = seq![EventView::Field(content_type), EventView::FileCreated];
    let closing = seq![EventView::EndOfField];
    let answer = ActionView::Respond(OutcomeView::Stored(reference_text(name)));
    lemma_opening(limit, content_type, kind, id);
    lemma_opening_effects(name);
    let opened = run(initial(limit), opening, id);
    lemma_fitting(chunks, limit);
    lemma_chunks(opened.state, chunks, id);
    assert(chunks.take(chunks.len() as int) =~= chunks);
    let streamed = run(opened.state, chunk_events(chunks), id);
    lemma_run_one(streamed.state, EventView::EndOfField, id);
    let closed = run(streamed.state, closing, id);
    lemma_run_concat(initial(limit), opening, chunk_events(chunks), id);
    lemma_run_concat(initial(limit), opening + chunk_events(chunks), closing, id);
    let r = run(initial(limit), upload_events(content_type, chunks), id);
    assert(r.actions =~= (opened.actions + streamed.actions) + closed.actions);
    lemma_effects_concat(opened.actions, streamed.actions);
    lemma_effects_concat(opened.actions + streamed.actions, closed.actions);
    lemma_effects_cons(answer, Seq::empty());
    assert(closed.actions =~= seq![answer] + Seq::<ActionView>::empty());
    assert(created(r.actions) =~= seq![name]);
    assert(written(r.actions) =~= chunks.flatten());
    assert(responses(r.actions) =~= seq![OutcomeView::Stored(reference_text(name))]);
}

/// A field of an accepted format that grows past the ceiling is cut off.
/// The answer is that the payload is too large. The file has been created,
/// and what has been appended to it is the chunks that came before the one
/// that crossed the ceiling: never more bytes than the ceiling allows. The
/// chunk that crossed it is not written, and no later one is asked for.
pub proof fn lemma_upload_is_cut_off(
    limit: nat,
    content_type: Option<Seq<char>>,
    kind: ImageKind,
    chunks: Seq<Seq<u8>>,
    id: Seq<char>,
)
    requires
        declared_class(content_type) == MediaClass::Accepted(kind),
        chunks.flatten().len() > limit,
    ensures
        ({
            let r = run(initial(limit), upload_events(content_type, chunks), id);
            let kept = fitting(chunks, limit);
            &&& 0 <= kept < chunks.len()
            &&& r.state.stage == Stage::Finished
            &&& created(r.actions) == seq![asset_name_text(id, kind)]
            &&& written(r.actions) == chunks.take(kept).flatten()
            &&& written(r.actions).len() <= limit < chunks.take(kept + 1).flatten().len()
            &&& responses(r.actions) == seq![OutcomeView::Failed(UploadError::PayloadTooLarge)]
        }),
{
    let name = asset_name_text(id, kind);
    let opening = seq![EventView::Field(content_type), EventView::FileCreated];
    let closing = seq![EventView::EndOfField];
    lemma_opening(limit, content_type, kind, id);
    lemma_opening_effects(name);
    let opened = run(initial(limit), opening, id);
    lemma_fitting(chunks, limit);
    lemma_chunks(opened.state, chunks, id);
    let streamed = run(opened.state, chunk_events(chunks), id);
    lemma_finished_is_final(streamed.state, closing, id);
    lemma_run_concat(initial(limit), opening, chunk_events(chunks), id);
    lemma_run_concat(initial(limit), opening + chunk_events(chunks), closing, id);
    let r = run(initial(limit), upload_events(content_type, chunks), id);
    assert(r.actions =~= opened.actions + streamed.actions);
    lemma_effects_concat(opened.actions, streamed.actions);
    assert(created(r.actions) =~= seq![name]);
    assert(written(r.actions) =~= chunks.take(fitting(chunks, limit)).flatten());
    assert(responses(r.actions) =~= seq![OutcomeView::Failed(UploadError::PayloadTooLarge)]);
}

/// Uploads do not collide. Two uploads that are stored under different
/// identifiers create files of different names and are answered with
/// different paths, whatever they hold: also where their bytes are the
/// same.
pub proof fn lemma_uploads_do_not_collide(
    limit: nat,
    content_type: Option<Seq<char>>,
    kind: ImageKind,
    chunks: Seq<Seq<u8>>,
    id1: Seq<char>,
    id2: Seq<char>,
)
    requires
        declared_class(content_type) == MediaClass::Accepted(kind),
        chunks.flatten().len() <= limit,
        id1 != id2,
    ensures
        ({
            let first = run(initial(limit), upload_events(content_type, chunks), id1);
            let second = run(initial(limit), upload_events(content_type, chunks), id2);
            &&& written(first.actions) == written(second.actions)
            &&& created(first.actions).len() == 1
            &&& created(second.actions).len() == 1
            &&& created(first.actions)[0] != created(second.actions)[0]
            &&& responses(first.actions).len() == 1
            &&& responses(second.actions).len() == 1
            &&& responses(first.actions)[0] != responses(second.actions)[0]
        }),
{
    lemma_upload_is_stored(limit, content_type, kind, chunks, id1);
    lemma_upload_is_stored(limit, content_type, kind, chunks, id2);
    lemma_asset_names_differ(id1, kind, id2, kind);
    lemma_reference_paths_differ(asset_name_text(id1, kind), asset_name_text(id2, kind));
}

/// No client names a file. Whatever the host reports, a file that the
/// session asks for is named by the identifier and an extension alone, and
/// with a well-shaped identifier that name is a plain one.
pub proof fn lemma_created_names_are_plain(limit: nat, events: Seq<EventView>, id: Seq<char>)
    requires
        is_identifier_text(id),
    ensures
        forall|i: int|
            0 <= i < created(run(initial(limit), events, id).actions).len() ==> is_plain_name(
                #[trigger] created(run(initial(limit), events, id).actions)[i],
            ),
{
    lemma_run_creates_once(initial(limit), events, id);
    let names = created(run(initial(limit), events, id).actions);
    if names.len() > 0 {
        let kind = choose|kind: ImageKind| names[0] == #[trigger] asset_name_text(id, kind);
        lemma_asset_name_is_plain(id, kind);
    }
}

/// Only the first field counts. Once a run has brought the session to its
/// end, whatever the host reports after that changes nothing and is
/// answered by nothing.
pub proof fn lemma_rest_is_ignored(
    s: SessionView,
    events: Seq<EventView>,
    rest: Seq<EventView>,
    id: Seq<char>,
)
    requires
        run(s, events, id).state.stage == Stage::Finished,
    ensures
        run(s, events + rest, id).state == run(s, events, id).state,
        run(s, events + rest, id).actions == run(s, events, id).actions,
{
    lemma_run_concat(s, events, rest, id);
    lemma_finished_is_final(run(s, events, id).state, rest, id);
    assert(run(s, events, id).actions + Seq::<ActionView>::empty() =~= run(s, events, id).actions);
}

} // verus!
