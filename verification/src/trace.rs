//! Whole requests: what a session does over a sequence of events, and what
//! holds of every such run.

use crate::media::{declared_class, ImageKind};
use crate::naming::{asset_name_text, reference_text};
use crate::outcome::OutcomeView;
use crate::session::{initial, next, ActionView, EventView, SessionView, Stage};
use vstd::prelude::*;

verus! {

/// What a sequence of events leaves behind: the state of the session, and
/// the actions it asked for, in order.
pub struct Run {
    pub state: SessionView,
    pub actions: Seq<ActionView>,
}

/// Feeds `events` to a session in state `s`, one after the other. An event
/// that the session refuses changes nothing and is answered by no action.
pub open spec fn run(s: SessionView, events: Seq<EventView>, id: Seq<char>) -> Run
    decreases events.len(),
{
    if events.len() == 0 {
        Run { state: s, actions: Seq::empty() }
    } else {
        match next(s, events[0], id) {
            Some((state, action)) => {
                let rest = run(state, events.drop_first(), id);
                Run { state: rest.state, actions: seq![action] + rest.actions }
            },
            None => run(s, events.drop_first(), id),
        }
    }
}

/// The bytes that one action appends to the file.
pub open spec fn appended_by(action: ActionView) -> Seq<u8> {
    match action {
        ActionView::Write(data) => data,
        _ => Seq::empty(),
    }
}

/// The bytes that `actions` append to the file, in order.
pub open spec fn written(actions: Seq<ActionView>) -> Seq<u8>
    decreases actions.len(),
{
    if actions.len() == 0 {
        Seq::empty()
    } else {
        appended_by(actions[0]) + written(actions.drop_first())
    }
}

/// The names of the files that `actions` create, in order.
pub open spec fn created(actions: Seq<ActionView>) -> Seq<Seq<char>>
    decreases actions.len(),
{
    if actions.len() == 0 {
        Seq::empty()
    } else {
        let rest = created(actions.drop_first());
        match actions[0] {
            ActionView::CreateFile(name) => seq![name] + rest,
            _ => rest,
        }
    }
}

/// The responses among `actions`, in order.
pub open spec fn responses(actions: Seq<ActionView>) -> Seq<OutcomeView>
    decreases actions.len(),
{
    if actions.len() == 0 {
        Seq::empty()
    } else {
        let rest = responses(actions.drop_first());
        match actions[0] {
            ActionView::Respond(outcome) => seq![outcome] + rest,
            _ => rest,
        }
    }
}

/// What `actions` do, by the first of them and the rest.
pub proof fn lemma_effects_cons(action: ActionView, rest: Seq<ActionView>)
    ensures
        written(seq![action] + rest) == appended_by(action) + written(rest),
        created(seq![action] + rest) == match action {
            ActionView::CreateFile(name) => seq![name] + created(rest),
            _ => created(rest),
        },
        responses(seq![action] + rest) == match action {
            ActionView::Respond(outcome) => seq![outcome] + responses(rest),
            _ => responses(rest),
        },
{
    let all = seq![action] + rest;
    assert(all[0] == action);
    assert(all.drop_first() =~= rest);
}

/// What `actions` do, taken apart, is what each part does, put together.
pub proof fn lemma_effects_concat(a: Seq<ActionView>, b: Seq<ActionView>)
    ensures
        written(a + b) == written(a) + written(b),
        created(a + b) == created(a) + created(b),
        responses(a + b) == responses(a) + responses(b),
    decreases a.len(),
{
    if a.len() == 0 {
        assert(a + b =~= b);
        assert(written(a) + written(b) =~= written(b));
        assert(created(a) + created(b) =~= created(b));
        assert(responses(a) + responses(b) =~= responses(b));
    } else {
        lemma_effects_concat(a.drop_first(), b);
        assert((a + b).drop_first() =~= a.drop_first() + b);
        assert((a + b)[0] == a[0]);
        assert(written(a + b) =~= written(a) + written(b));
        assert(created(a + b) =~= created(a) + created(b));
        assert(responses(a + b) =~= responses(a) + responses(b));
    }
}

/// A run over one event is one step.
pub proof fn lemma_run_one(s: SessionView, event: EventView, id: Seq<char>)
    ensures
        match next(s, event, id) {
            Some((state, action)) => {
                &&& run(s, seq![event], id).state == state
                &&& run(s, seq![event], id).actions == seq![action]
            },
            None => {
                &&& run(s, seq![event], id).state == s
                &&& run(s, seq![event], id).actions == Seq::<ActionView>::empty()
            },
        },
{
    let events = seq![event];
    let rest = events.drop_first();
    assert(rest.len() == 0);
    match next(s, event, id) {
        Some((state, action)) => {
            assert(run(state, rest, id).state == state);
            assert(run(s, events, id).actions =~= seq![action]);
        },
        None => {
            assert(run(s, rest, id).state == s);
        },
    }
}

/// Runs compose: a run over `first + second` is the run over `first`
/// followed, from the state it ends in, by the run over `second`.
pub proof fn lemma_run_concat(
    s: SessionView,
    first: Seq<EventView>,
    second: Seq<EventView>,
    id: Seq<char>,
)
    ensures
        run(s, first + second, id).state == run(run(s, first, id).state, second, id).state,
        run(s, first + second, id).actions == run(s, first, id).actions + run(
            run(s, first, id).state,
            second,
            id,
        ).actions,
    decreases first.len(),
{
    let whole = first + second;
    if first.len() == 0 {
        assert(whole =~= second);
        assert(run(s, whole, id).actions =~= run(s, first, id).actions + run(s, second, id).actions);
    } else {
        assert(whole[0] == first[0]);
        assert(whole.drop_first() =~= first.drop_first() + second);
        match next(s, first[0], id) {
            Some((state, action)) => {
                lemma_run_concat(state, first.drop_first(), second, id);
                let head = run(state, first.drop_first(), id);
                let tail = run(head.state, second, id);
                assert(run(s, whole, id).actions =~= (seq![action] + head.actions) + tail.actions);
            },
            None => {
                lemma_run_concat(s, first.drop_first(), second, id);
            },
        }
    }
}

/// Nothing follows the response: a finished session refuses every event.
pub proof fn lemma_finished_is_final(s: SessionView, events: Seq<EventView>, id: Seq<char>)
    requires
        s.stage == Stage::Finished,
    ensures
        run(s, events, id).state == s,
        run(s, events, id).actions == Seq::<ActionView>::empty(),
    decreases events.len(),
{
    if events.len() > 0 {
        lemma_finished_is_final(s, events.drop_first(), id);
    }
}

/// The size ceiling holds in every state: a run never changes the ceiling,
/// never counts more bytes than it allows, and counts exactly the bytes it
/// has asked to append.
pub proof fn lemma_run_respects_ceiling(s: SessionView, events: Seq<EventView>, id: Seq<char>)
    requires
        s.received <= s.limit,
    ensures
        run(s, events, id).state.limit == s.limit,
        run(s, events, id).state.received <= s.limit,
        run(s, events, id).state.received == s.received + written(run(s, events, id).actions).len(),
    decreases events.len(),
{
    if events.len() > 0 {
        match next(s, events[0], id) {
            Some((state, action)) => {
                lemma_run_respects_ceiling(state, events.drop_first(), id);
                lemma_effects_cons(action, run(state, events.drop_first(), id).actions);
            },
            None => {
                lemma_run_respects_ceiling(s, events.drop_first(), id);
            },
        }
    }
}

/// A request is answered at most once, and the answer is the last thing
/// the session asks for: a run holds a response exactly if it brings the
/// session to its end.
pub proof fn lemma_run_responds_once(s: SessionView, events: Seq<EventView>, id: Seq<char>)
    requires
        s.stage != Stage::Finished,
    ensures
        run(s, events, id).state.stage != Stage::Finished ==> responses(run(s, events, id).actions)
            == Seq::<OutcomeView>::empty(),
        run(s, events, id).state.stage == Stage::Finished ==> {
            let actions = run(s, events, id).actions;
            &&& actions.len() > 0
            &&& actions.last() is Respond
            &&& responses(actions) == seq![actions.last()->Respond_0]
        },
    decreases events.len(),
{
    if events.len() > 0 {
        match next(s, events[0], id) {
            Some((state, action)) => {
                let rest = run(state, events.drop_first(), id);
                let actions = seq![action] + rest.actions;
                lemma_effects_cons(action, rest.actions);
                if state.stage == Stage::Finished {
                    lemma_finished_is_final(state, events.drop_first(), id);
                    assert(responses(actions) =~= seq![action->Respond_0]);
                } else {
                    lemma_run_responds_once(state, events.drop_first(), id);
                    if rest.state.stage == Stage::Finished {
                        assert(actions.last() == rest.actions.last());
                    }
                }
            },
            None => {
                lemma_run_responds_once(s, events.drop_first(), id);
            },
        }
    }
}

/// At most one file is created for a request, and only for a session that
/// has seen no field yet. The file is named by the identifier and the
/// extension of an accepted format, and the session keeps that name.
pub proof fn lemma_run_creates_once(s: SessionView, events: Seq<EventView>, id: Seq<char>)
    ensures
        ({
            let r = run(s, events, id);
            ||| created(r.actions) == Seq::<Seq<char>>::empty() && r.state.name == s.name
            ||| s.stage == Stage::AwaitingField && created(r.actions) == seq![r.state.name]
                && exists|kind: ImageKind| r.state.name == #[trigger] asset_name_text(id, kind)
        }),
    decreases events.len(),
{
    if events.len() > 0 {
        match next(s, events[0], id) {
            Some((state, action)) => {
                let rest = run(state, events.drop_first(), id);
                lemma_run_creates_once(state, events.drop_first(), id);
                lemma_effects_cons(action, rest.actions);
                match action {
                    ActionView::CreateFile(name) => {
                        let kind = declared_class(events[0]->Field_0)->Accepted_0;
                        assert(name == asset_name_text(id, kind));
                        assert(created(seq![action] + rest.actions) =~= seq![name]);
                    },
                    _ => {},
                }
            },
            None => {
                lemma_run_creates_once(s, events.drop_first(), id);
            },
        }
    }
}

/// A path that a run hands out refers to the name that the session holds
/// at the end of the run, and a run that starts before the first field
/// hands out none unless it has created a file.
proof fn lemma_stored_path_is_of_the_name(s: SessionView, events: Seq<EventView>, id: Seq<char>)
    ensures
        ({
            let r = run(s, events, id);
            let answers = responses(r.actions);
            answers.len() > 0 && answers[0] is Stored ==> {
                &&& answers[0]->Stored_0 == reference_text(r.state.name)
                &&& s.stage == Stage::AwaitingField ==> created(r.actions).len() > 0
            }
        }),
    decreases events.len(),
{
    if events.len() > 0 {
        match next(s, events[0], id) {
            Some((state, action)) => {
                let rest = run(state, events.drop_first(), id);
                lemma_effects_cons(action, rest.actions);
                if state.stage == Stage::Finished {
                    lemma_finished_is_final(state, events.drop_first(), id);
                } else {
                    lemma_stored_path_is_of_the_name(state, events.drop_first(), id);
                }
            },
            None => {
                lemma_stored_path_is_of_the_name(s, events.drop_first(), id);
            },
        }
    }
}

/// A reference path is handed out only for a file that has been created.
/// Where a request is answered with a path, one file was created for it,
/// named by the identifier and the extension of an accepted format, and the
/// path is the reference path of that name.
pub proof fn lemma_stored_path_names_the_file(limit: nat, events: Seq<EventView>, id: Seq<char>)
    ensures
        ({
            let r = run(initial(limit), events, id);
            let answers = responses(r.actions);
            answers.len() > 0 && answers[0] is Stored ==> exists|kind: ImageKind|
                created(r.actions) == seq![#[trigger] asset_name_text(id, kind)]
                    && answers[0]->Stored_0 == reference_text(asset_name_text(id, kind))
        }),
{
    lemma_stored_path_is_of_the_name(initial(limit), events, id);
    lemma_run_creates_once(initial(limit), events, id);
}

} // verus!
