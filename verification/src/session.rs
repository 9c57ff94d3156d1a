//! One upload request as a state machine.
//!
//! The host reads the multipart body and writes the file; the session
//! decides. The host reports each thing that happened as an [`Event`] and
//! performs the [`Action`] it gets back, until that action is a response.
//! Only the first field of a body is ever looked at: once it has been dealt
//! with the session responds, and it asks for no other.
//!
//! A file that has been created is never taken back. When an upload fails
//! after that (the field grows past the ceiling, the body breaks off, a
//! write fails), what has been written stays where it is, and no path to it
//! is handed out. Clearing such leftovers is left to whoever keeps the
//! storage root.

use crate::media::{classify_content_type, declared_class, MediaClass};
use crate::naming::{
    asset_name, asset_name_text, is_random_identifier_text, lemma_sample_identifier_is_random,
    new_asset_name, reference_path, reference_text, sample_identifier,
};
use crate::outcome::{BadRequestCause, Outcome, OutcomeView, UploadError};
use vstd::prelude::*;

verus! {

/// Where a session stands.
#[derive(Clone, Copy, Debug, PartialEq, Eq, Structural)]
pub enum Stage {
    /// Waiting for the first field of the body.
    AwaitingField,
    /// Waiting for the file to be created.
    Creating,
    /// Waiting for the next chunk of the field.
    Receiving,
    /// Waiting for a chunk to be written.
    Writing,
    /// The response has been given.
    Finished,
}

/// What the host reports to the session.
#[derive(Debug, PartialEq, Eq)]
pub enum Event {
    /// A field begins. It declares this content type, or none that can be
    /// read.
    Field(Option<String>),
    /// The body holds no field.
    NoMoreFields,
    /// Reading the body failed, between fields or within one.
    BodyError,
    /// The file has been created.
    FileCreated,
    /// The field yielded its next chunk.
    Chunk(Vec<u8>),
    /// The field has ended.
    EndOfField,
    /// The chunk has been written.
    ChunkWritten,
    /// Creating the file, or writing to it, failed.
    StorageError,
}

/// What the session asks of the host.
#[derive(Debug, PartialEq, Eq)]
pub enum Action {
    /// Create a new file of this name under the storage root.
    CreateFile(String),
    /// Read the next chunk of the field.
    NextChunk,
    /// Append these bytes to the file.
    Write(Vec<u8>),
    /// Send this response. The session is over.
    Respond(Outcome),
}

/// `Event` over sequences.
pub enum EventView {
    Field(Option<Seq<char>>),
    NoMoreFields,
    BodyError,
    FileCreated,
    Chunk(Seq<u8>),
    EndOfField,
    ChunkWritten,
    StorageError,
}

/// `Action` over sequences.
pub enum ActionView {
    CreateFile(Seq<char>),
    NextChunk,
    Write(Seq<u8>),
    Respond(OutcomeView),
}

impl View for Event {
    type V = EventView;

    open spec fn view(&self) -> EventView {
        match self {
            Event::Field(content_type) => EventView::Field(content_type.deep_view()),
            Event::NoMoreFields => EventView::NoMoreFields,
            Event::BodyError => EventView::BodyError,
            Event::FileCreated => EventView::FileCreated,
            Event::Chunk(data) => EventView::Chunk(data@),
            Event::EndOfField => EventView::EndOfField,
            Event::ChunkWritten => EventView::ChunkWritten,
            Event::StorageError => EventView::StorageError,
        }
    }
}

impl View for Action {
    type V = ActionView;

    open spec fn view(&self) -> ActionView {
        match self {
            Action::CreateFile(name) => ActionView::CreateFile(name@),
            Action::NextChunk => ActionView::NextChunk,
            Action::Write(data) => ActionView::Write(data@),
            Action::Respond(outcome) => ActionView::Respond(outcome@),
        }
    }
}

/// The view of an action that may be absent.
pub open spec fn action_view(action: Option<Action>) -> Option<ActionView> {
    match action {
        Some(a) => Some(a@),
        None => None,
    }
}

/// The state of one upload request.
#[derive(Debug)]
pub struct Session {
    limit: usize,
    stage: Stage,
    name: String,
    received: usize,
}

/// A session as plain values.
pub struct SessionView {
    /// The size ceiling, in bytes.
    pub limit: nat,
    pub stage: Stage,
    /// The asset name, once chosen; empty before.
    pub name: Seq<char>,
    /// The bytes accepted so far.
    pub received: nat,
}

impl View for Session {
    type V = SessionView;

    closed spec fn view(&self) -> SessionView {
        SessionView {
            limit: self.limit as nat,
            stage: self.stage,
            name: self.name@,
            received: self.received as nat,
        }
    }
}

/// The session of a request that has not been looked at yet.
pub open spec fn initial(limit: nat) -> SessionView {
    SessionView { limit, stage: Stage::AwaitingField, name: Seq::empty(), received: 0 }
}

/// `s`, over.
pub open spec fn finished(s: SessionView) -> SessionView {
    SessionView { stage: Stage::Finished, ..s }
}

/// The response that ends a session in failure.
pub open spec fn fail(s: SessionView, error: UploadError) -> Option<(SessionView, ActionView)> {
    Some((finished(s), ActionView::Respond(OutcomeView::Failed(error))))
}

/// The transition function: the state after `event` and the action that
/// answers it, or `None` where the session is not waiting for such an event.
/// `id` is the identifier that the asset is named by, should the event be
/// the one that gets the asset named.
pub open spec fn next(s: SessionView, event: EventView, id: Seq<char>) -> Option<
    (SessionView, ActionView),
> {
    match (s.stage, event) {
        (Stage::AwaitingField, EventView::Field(content_type)) => match declared_class(
            content_type,
        ) {
            MediaClass::Accepted(kind) => {
                let name = asset_name_text(id, kind);
                Some((SessionView { stage: Stage::Creating, name, ..s }, ActionView::CreateFile(name)))
            },
            MediaClass::Unsupported => fail(s, UploadError::UnsupportedMediaType),
        },
        (Stage::AwaitingField, EventView::NoMoreFields) => fail(
            s,
            UploadError::BadRequest(BadRequestCause::NoFile),
        ),
        (Stage::AwaitingField, EventView::BodyError) => fail(
            s,
            UploadError::BadRequest(BadRequestCause::MalformedBody),
        ),
        (Stage::Creating, EventView::FileCreated) => Some(
            (SessionView { stage: Stage::Receiving, ..s }, ActionView::NextChunk),
        ),
        (Stage::Creating, EventView::StorageError) => fail(s, UploadError::InternalStorageError),
        (Stage::Receiving, EventView::Chunk(data)) => if s.received + data.len() > s.limit {
            fail(s, UploadError::PayloadTooLarge)
        } else {
            Some(
                (
                    SessionView { stage: Stage::Writing, received: s.received + data.len(), ..s },
                    ActionView::Write(data),
                ),
            )
        },
        (Stage::Receiving, EventView::EndOfField) => Some(
            (finished(s), ActionView::Respond(OutcomeView::Stored(reference_text(s.name)))),
        ),
        (Stage::Receiving, EventView::BodyError) => fail(
            s,
            UploadError::BadRequest(BadRequestCause::MalformedBody),
        ),
        (Stage::Writing, EventView::ChunkWritten) => Some(
            (SessionView { stage: Stage::Receiving, ..s }, ActionView::NextChunk),
        ),
        (Stage::Writing, EventView::StorageError) => fail(s, UploadError::InternalStorageError),
        _ => None,
    }
}

/// Whether a step from `before` on `event` may end in `after` with `action`:
/// as `next` says, and with nothing changed where the event is refused.
pub open spec fn steps_to(
    before: SessionView,
    event: EventView,
    id: Seq<char>,
    after: SessionView,
    action: Option<ActionView>,
) -> bool {
    match next(before, event, id) {
        Some((state, answer)) => after == state && action == Some(answer),
        None => after == before && action is None,
    }
}

impl Session {
    /// No session counts more bytes than its ceiling allows.
    #[verifier::type_invariant]
    spec fn within_ceiling(self) -> bool {
        self.received <= self.limit
    }

    /// A session for one request, with the size ceiling in bytes.
    pub fn new(limit: usize) -> (r: Session)
        ensures
            r@ == initial(limit as nat),
    {
        Session { limit, stage: Stage::AwaitingField, name: String::new(), received: 0 }
    }

    /// Where the session stands.
    pub fn stage(&self) -> (r: Stage)
        ensures
            r == self@.stage,
    {
        self.stage
    }

    /// The size ceiling, in bytes.
    pub fn limit(&self) -> (r: usize)
        ensures
            r == self@.limit,
    {
        self.limit
    }

    /// The number of bytes accepted so far: never more than the ceiling.
    pub fn received(&self) -> (r: usize)
        ensures
            r == self@.received,
            r <= self@.limit,
    {
        proof {
            use_type_invariant(self);
        }
        self.received
    }

    /// The asset name, once it has been chosen; empty before.
    pub fn name(&self) -> (r: &str)
        ensures
            r@ == self@.name,
    {
        self.name.as_str()
    }

    /// Ends the session with a failure.
    fn finish(&mut self, error: UploadError) -> (r: Option<Action>)
        ensures
            Some((final(self)@, r->0@)) == fail(old(self)@, error),
            r is Some,
    {
        proof {
            use_type_invariant(&*self);
        }
        self.stage = Stage::Finished;
        Some(Action::Respond(Outcome::Failed(error)))
    }

    /// Takes one step. The asset is named by `given`, or by a fresh
    /// identifier where none is given.
    fn advance(&mut self, event: Event, given: Option<&str>) -> (r: Option<Action>)
        ensures
            given matches Some(id) ==> steps_to(
                old(self)@,
                event@,
                id@,
                final(self)@,
                action_view(r),
            ),
            given is None ==> exists|id: Seq<char>|
                is_random_identifier_text(id) && #[trigger] steps_to(
                    old(self)@,
                    event@,
                    id,
                    final(self)@,
                    action_view(r),
                ),
    {
        proof {
            use_type_invariant(&*self);
        }
        let ghost before = self@;
        let ghost seen = event@;
        let ghost mut witness = sample_identifier();
        proof {
            lemma_sample_identifier_is_random();
        }
        let r = match self.stage {
            Stage::AwaitingField => match event {
                Event::Field(content_type) => {
                    let class = match &content_type {
                        Some(text) => classify_content_type(Some(text.as_str())),
                        None => classify_content_type(None),
                    };
                    match class {
                        MediaClass::Accepted(kind) => {
                            let name = match given {
                                Some(id) => asset_name(id, kind),
                                None => {
                                    let name = new_asset_name(kind);
                                    proof {
                                        witness = choose|id: Seq<char>|
                                            is_random_identifier_text(id) && name@
                                                == #[trigger] asset_name_text(id, kind);
                                    }
                                    name
                                },
                            };
                            self.name = name.clone();
                            self.stage = Stage::Creating;
                            Some(Action::CreateFile(name))
                        },
                        MediaClass::Unsupported => self.finish(UploadError::UnsupportedMediaType),
                    }
                },
                Event::NoMoreFields => self.finish(
                    UploadError::BadRequest(BadRequestCause::NoFile),
                ),
                Event::BodyError => self.finish(
                    UploadError::BadRequest(BadRequestCause::MalformedBody),
                ),
                _ => None,
            },
            Stage::Creating => match event {
                Event::FileCreated => {
                    self.stage = Stage::Receiving;
                    Some(Action::NextChunk)
                },
                Event::StorageError => self.finish(UploadError::InternalStorageError),
                _ => None,
            },
            Stage::Receiving => match event {
                Event::Chunk(data) => {
                    let size = data.len();
                    if size > self.limit - self.received {
                        self.finish(UploadError::PayloadTooLarge)
                    } else {
                        self.received = self.received + size;
                        self.stage = Stage::Writing;
                        Some(Action::Write(data))
                    }
                },
                Event::EndOfField => {
                    let path = reference_path(self.name.as_str());
                    self.stage = Stage::Finished;
                    Some(Action::Respond(Outcome::Stored(path)))
                },
                Event::BodyError => self.finish(
                    UploadError::BadRequest(BadRequestCause::MalformedBody),
                ),
                _ => None,
            },
            Stage::Writing => match event {
                Event::ChunkWritten => {
                    self.stage = Stage::Receiving;
                    Some(Action::NextChunk)
                },
                Event::StorageError => self.finish(UploadError::InternalStorageError),
                _ => None,
            },
            Stage::Finished => None,
        };
        assert(given is None ==> steps_to(before, seen, witness, self@, action_view(r)));
        r
    }

    /// Takes one step: `event` is what happened, the result is what to do
    /// next. `None` means that the session was not waiting for such an
    /// event; nothing has changed then. An asset that this step names is
    /// named by a fresh random identifier.
    pub fn step(&mut self, event: Event) -> (r: Option<Action>)
        ensures
            exists|id: Seq<char>|
                is_random_identifier_text(id) && #[trigger] steps_to(
                    old(self)@,
                    event@,
                    id,
                    final(self)@,
                    action_view(r),
                ),
    {
        self.advance(event, None)
    }

    /// Takes one step as `step` does, but names the asset by `id` where
    /// this is the step that names it. This is for a host that draws its
    /// identifiers itself: `id` must be of its own making, never something
    /// that a client sent.
    pub fn step_with(&mut self, event: Event, id: &str) -> (r: Option<Action>)
        ensures
            steps_to(old(self)@, event@, id@, final(self)@, action_view(r)),
    {
        self.advance(event, Some(id))
    }
}

} // verus!
