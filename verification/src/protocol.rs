//! The dialogue between the library, which decides, and its caller, which
//! performs.
//!
//! An operation starts as a [`Step`]. While it is [`Step::Next`], the caller
//! performs the action and resumes the operation with the event that answers
//! it. [`run`] is that dialogue in full, against a [`World`] that holds an
//! answer to every action.

use crate::api::login::{LoginResponseBody, LoginResponseBodyView};
use crate::api::verify_in_room::JoinedMembers;
use crate::api::{ApiError, ApiErrorView, MatrixErrorResponseBody, MatrixErrorResponseBodyView};
use crate::config::{Config, ConfigError, ConfigErrorView, ConfigView};
use crate::exchange::{Reply, ReplyView, Request, RequestView};
use vstd::prelude::*;

verus! {

/// What the caller is asked to do next.
#[derive(Debug, PartialEq, Eq)]
pub enum Action {
    /// Send the request and report how it ended.
    Http(Request),
    /// Read the text as the body of a successful login.
    DecodeLogin(String),
    /// Read the text as the list of a room's joined members.
    DecodeMembers(String),
    /// Read the text as the server's explanation of a rejection.
    DecodeError(String),
    /// Tell the user of a failure that does not end the run.
    Report(ApiError),
    /// Write the credentials back to where they are kept.
    Save(Config),
}

/// [`Action`] in specifications.
pub enum ActionView {
    Http(RequestView),
    DecodeLogin(Seq<char>),
    DecodeMembers(Seq<char>),
    DecodeError(Seq<char>),
    Report(ApiErrorView),
    Save(ConfigView),
}

impl View for Action {
    type V = ActionView;

    open spec fn view(&self) -> ActionView {
        match *self {
            Action::Http(request) => ActionView::Http(request@),
            Action::DecodeLogin(text) => ActionView::DecodeLogin(text@),
            Action::DecodeMembers(text) => ActionView::DecodeMembers(text@),
            Action::DecodeError(text) => ActionView::DecodeError(text@),
            Action::Report(error) => ActionView::Report(error@),
            Action::Save(config) => ActionView::Save(config@),
        }
    }
}

impl Clone for Action {
    fn clone(&self) -> (copy: Self)
        ensures
            copy == *self,
    {
        match self {
            Action::Http(request) => Action::Http(request.clone()),
            Action::DecodeLogin(text) => Action::DecodeLogin(text.clone()),
            Action::DecodeMembers(text) => Action::DecodeMembers(text.clone()),
            Action::DecodeError(text) => Action::DecodeError(text.clone()),
            Action::Report(error) => Action::Report(error.clone()),
            Action::Save(config) => Action::Save(config.clone()),
        }
    }
}

/// What came of an action. A body that was read arrives as its value, one
/// that does not have the expected shape as the decoder's message.
#[derive(Debug, PartialEq, Eq)]
pub enum Event {
    Http(Reply),
    Login(Result<LoginResponseBody, String>),
    Members(Result<JoinedMembers, String>),
    Error(Result<MatrixErrorResponseBody, String>),
    Reported,
    Saved(Result<(), ConfigError>),
}

/// [`Event`] in specifications. The joined members of a room come as the
/// set of their identities.
pub enum EventView {
    Http(ReplyView),
    Login(Result<LoginResponseBodyView, Seq<char>>),
    Members(Result<Set<Seq<char>>, Seq<char>>),
    Error(Result<MatrixErrorResponseBodyView, Seq<char>>),
    Reported,
    Saved(Result<(), ConfigErrorView>),
}

/// The view of a decoder's result.
pub open spec fn decoded_view<T: View>(decoded: Result<T, String>) -> Result<T::V, Seq<char>> {
    match decoded {
        Ok(value) => Ok(value@),
        Err(message) => Err(message@),
    }
}

impl View for Event {
    type V = EventView;

    open spec fn view(&self) -> EventView {
        match *self {
            Event::Http(reply) => EventView::Http(reply@),
            Event::Login(decoded) => EventView::Login(decoded_view(decoded)),
            Event::Members(decoded) => EventView::Members(decoded_view(decoded)),
            Event::Error(decoded) => EventView::Error(decoded_view(decoded)),
            Event::Reported => EventView::Reported,
            Event::Saved(saved) => EventView::Saved(
                match saved {
                    Ok(_) => Ok(()),
                    Err(error) => Err(error@),
                },
            ),
        }
    }
}

/// Where an operation stands: waiting in state `S` for the answer to an
/// action, or done with its result.
#[derive(Debug, PartialEq, Eq)]
pub enum Step<S, T> {
    Next(S, Action),
    Done(Result<T, ApiError>),
}

/// [`Step`] in specifications.
pub enum StepView<S, T> {
    Next(S, ActionView),
    Done(Result<T, ApiErrorView>),
}

impl<S: View, T: View> View for Step<S, T> {
    type V = StepView<S::V, T::V>;

    open spec fn view(&self) -> StepView<S::V, T::V> {
        match *self {
            Step::Next(state, action) => StepView::Next(state@, action@),
            Step::Done(Ok(value)) => StepView::Done(Ok(value@)),
            Step::Done(Err(error)) => StepView::Done(Err(error@)),
        }
    }
}

/// The view of what resuming an operation gives: `None` where the event
/// does not answer the action that the operation waits for.
pub open spec fn resumed_view<S: View, T: View>(resumed: Option<Step<S, T>>) -> Option<
    StepView<S::V, T::V>,
> {
    match resumed {
        Some(step) => Some(step@),
        None => None,
    }
}

/// All that lies outside the library: for every action, what comes of it.
pub struct World {
    pub http: spec_fn(RequestView) -> ReplyView,
    pub decode_login: spec_fn(Seq<char>) -> Result<LoginResponseBodyView, Seq<char>>,
    pub decode_members: spec_fn(Seq<char>) -> Result<Set<Seq<char>>, Seq<char>>,
    pub decode_error: spec_fn(Seq<char>) -> Result<MatrixErrorResponseBodyView, Seq<char>>,
    pub save: spec_fn(ConfigView) -> Result<(), ConfigErrorView>,
}

impl World {
    /// The event with which this world answers `action`.
    pub open spec fn answer(self, action: ActionView) -> EventView {
        match action {
            ActionView::Http(request) => EventView::Http((self.http)(request)),
            ActionView::DecodeLogin(text) => EventView::Login((self.decode_login)(text)),
            ActionView::DecodeMembers(text) => EventView::Members((self.decode_members)(text)),
            ActionView::DecodeError(text) => EventView::Error((self.decode_error)(text)),
            ActionView::Report(_) => EventView::Reported,
            ActionView::Save(config) => EventView::Saved((self.save)(config)),
        }
    }
}

/// A dialogue as it went: the actions that were performed, in order, and
/// the result, if the operation came to one.
pub struct Trace<T> {
    pub actions: Seq<ActionView>,
    pub outcome: Option<Result<T, ApiErrorView>>,
}

/// The dialogue that starts at `step`, is resumed by `resume` and answered
/// by `world`, for at most `limit` actions.
pub open spec fn run<S, T>(
    resume: spec_fn(S, EventView) -> Option<StepView<S, T>>,
    step: StepView<S, T>,
    world: World,
    limit: nat,
) -> Trace<T>
    decreases limit,
{
    match step {
        StepView::Done(outcome) => Trace { actions: Seq::empty(), outcome: Some(outcome) },
        StepView::Next(state, action) => {
            if limit == 0 {
                Trace { actions: Seq::empty(), outcome: None }
            } else {
                match resume(state, world.answer(action)) {
                    Some(next) => {
                        let rest = run(resume, next, world, (limit - 1) as nat);
                        Trace { actions: seq![action] + rest.actions, outcome: rest.outcome }
                    },
                    None => Trace { actions: seq![action], outcome: None },
                }
            }
        },
    }
}

/// How many of `actions` are of the given kind.
pub open spec fn count_actions(actions: Seq<ActionView>, kind: spec_fn(ActionView) -> bool) -> nat
    decreases actions.len(),
{
    if actions.len() == 0 {
        0
    } else if kind(actions.last()) {
        count_actions(actions.drop_last(), kind) + 1
    } else {
        count_actions(actions.drop_last(), kind)
    }
}

/// Whether `action` writes the credentials back.
pub open spec fn is_save(action: ActionView) -> bool {
    action is Save
}

/// Whether `action` is a request of the given kind.
pub open spec fn is_request_of(action: ActionView, kind: spec_fn(RequestView) -> bool) -> bool {
    action matches ActionView::Http(request) && kind(request)
}

/// How many of `actions` are requests of the given kind.
pub open spec fn count_requests(
    actions: Seq<ActionView>,
    kind: spec_fn(RequestView) -> bool,
) -> nat {
    count_actions(actions, |action: ActionView| is_request_of(action, kind))
}

/// Counting goes action by action.
pub proof fn lemma_count_actions_push(
    actions: Seq<ActionView>,
    action: ActionView,
    kind: spec_fn(ActionView) -> bool,
)
    ensures
        count_actions(actions.push(action), kind) == count_actions(actions, kind) + (if kind(
            action,
        ) {
            1nat
        } else {
            0nat
        }),
{
    assert(actions.push(action).drop_last() =~= actions);
}

/// Counting goes dialogue by dialogue.
pub proof fn lemma_count_actions_add(
    first: Seq<ActionView>,
    second: Seq<ActionView>,
    kind: spec_fn(ActionView) -> bool,
)
    ensures
        count_actions(first + second, kind) == count_actions(first, kind) + count_actions(
            second,
            kind,
        ),
    decreases second.len(),
{
    if second.len() > 0 {
        lemma_count_actions_add(first, second.drop_last(), kind);
        assert((first + second).drop_last() =~= first + second.drop_last());
    }
}

/// Requests are counted action by action.
pub proof fn lemma_count_requests_push(
    actions: Seq<ActionView>,
    action: ActionView,
    kind: spec_fn(RequestView) -> bool,
)
    ensures
        count_requests(actions.push(action), kind) == count_requests(actions, kind) + (
        if is_request_of(action, kind) {
            1nat
        } else {
            0nat
        }),
{
    lemma_count_actions_push(actions, action, |action: ActionView| is_request_of(action, kind));
}

/// Requests are counted dialogue by dialogue.
pub proof fn lemma_count_requests_add(
    first: Seq<ActionView>,
    second: Seq<ActionView>,
    kind: spec_fn(RequestView) -> bool,
)
    ensures
        count_requests(first + second, kind) == count_requests(first, kind) + count_requests(
            second,
            kind,
        ),
{
    lemma_count_actions_add(first, second, |action: ActionView| is_request_of(action, kind));
}

/// An operation that never asks for an action of some kind has none of that
/// kind in its dialogue, in any world.
pub proof fn lemma_run_never<S, T>(
    resume: spec_fn(S, EventView) -> Option<StepView<S, T>>,
    step: StepView<S, T>,
    world: World,
    limit: nat,
    kind: spec_fn(ActionView) -> bool,
)
    requires
        step matches StepView::Next(_, action) ==> !kind(action),
        forall|state: S, event: EventView|
            #[trigger] resume(state, event) matches Some(StepView::Next(_, action)) ==> !kind(
                action,
            ),
    ensures
        count_actions(run(resume, step, world, limit).actions, kind) == 0,
    decreases limit,
{
    if let StepView::Next(state, action) = step {
        if limit > 0 {
            lemma_count_actions_push(Seq::empty(), action, kind);
            if let Some(next) = resume(state, world.answer(action)) {
                lemma_run_never(resume, next, world, (limit - 1) as nat, kind);
                lemma_count_actions_add(
                    seq![action],
                    run(resume, next, world, (limit - 1) as nat).actions,
                    kind,
                );
            }
        }
    }
}

/// A dialogue with enough actions allowed stays the same when more are.
pub proof fn lemma_run_settles<S, T>(
    resume: spec_fn(S, EventView) -> Option<StepView<S, T>>,
    step: StepView<S, T>,
    world: World,
    limit: nat,
    more: nat,
)
    requires
        run(resume, step, world, limit).outcome is Some,
        limit <= more,
    ensures
        run(resume, step, world, more) == run(resume, step, world, limit),
    decreases limit,
{
    match step {
        StepView::Done(_) => {},
        StepView::Next(state, action) => {
            let next = resume(state, world.answer(action))->Some_0;
            lemma_run_settles(resume, next, world, (limit - 1) as nat, (more - 1) as nat);
        },
    }
}

/// The step of a whole operation that stands for `step` of a part of it:
/// while the part waits, the whole waits in the state `wrap` makes of the
/// part's; when the part is done, the whole goes on as `after` says.
pub open spec fn part_of<S, T, W, U>(
    wrap: spec_fn(S) -> W,
    after: spec_fn(Result<T, ApiErrorView>) -> StepView<W, U>,
    step: StepView<S, T>,
) -> StepView<W, U> {
    match step {
        StepView::Next(state, action) => StepView::Next(wrap(state), action),
        StepView::Done(outcome) => after(outcome),
    }
}

/// One dialogue after another: the actions of both, and the outcome of the
/// second.
pub open spec fn followed_by<T, U>(first: Trace<T>, second: Trace<U>) -> Trace<U> {
    Trace { actions: first.actions + second.actions, outcome: second.outcome }
}

/// The dialogue of a whole operation that starts with a part is the part's
/// own dialogue, followed by whatever the whole does with the part's
/// outcome: where the whole resumes a wrapped state as the part resumes its
/// own, and both dialogues end within their limits.
pub proof fn lemma_run_part<S, T, W, U>(
    part: spec_fn(S, EventView) -> Option<StepView<S, T>>,
    whole: spec_fn(W, EventView) -> Option<StepView<W, U>>,
    wrap: spec_fn(S) -> W,
    after: spec_fn(Result<T, ApiErrorView>) -> StepView<W, U>,
    step: StepView<S, T>,
    world: World,
    limit: nat,
    rest: nat,
)
    requires
        forall|state: S, event: EventView| #[trigger]
            whole(wrap(state), event) == (match part(state, event) {
                Some(next) => Some(part_of(wrap, after, next)),
                None => None,
            }),
        run(part, step, world, limit).outcome is Some,
        run(whole, after(run(part, step, world, limit).outcome->Some_0), world, rest).outcome
            is Some,
    ensures
        run(whole, part_of(wrap, after, step), world, limit + rest) == followed_by(
            run(part, step, world, limit),
            run(whole, after(run(part, step, world, limit).outcome->Some_0), world, rest),
        ),
    decreases limit,
{
    let first = run(part, step, world, limit);
    let second = run(whole, after(first.outcome->Some_0), world, rest);
    let both = run(whole, part_of(wrap, after, step), world, limit + rest);
    match step {
        StepView::Done(outcome) => {
            lemma_run_settles(whole, after(outcome), world, rest, limit + rest);
        },
        StepView::Next(state, action) => {
            let next = part(state, world.answer(action))->Some_0;
            lemma_run_part(part, whole, wrap, after, next, world, (limit - 1) as nat, rest);
            assert(both.actions =~= first.actions + second.actions);
        },
    }
}

} // verus!
