//! The orchestrator: one run of the notifier, from the stored credentials to
//! the delivered message.
//!
//! A token is resolved first and written back at once, so that a fresh login
//! outlives whatever fails later. Only then is membership seen to, and only a
//! member sends.

use crate::api::send_message::{
    is_message_call, law_delivery_is_one_request, law_delivery_writes_nothing,
    law_send_message_ends, send_message, send_message_resume, send_message_run,
    send_message_start, SendMessageState,
};
use crate::api::{ApiError, ApiErrorView};
use crate::config::{Config, ConfigError, ConfigErrorView, ConfigView};
use crate::exchange::RequestView;
use crate::membership::{
    ensure_member, ensure_member_resume, ensure_member_run, ensure_member_start,
    law_ensure_member_ends, law_guarantor_keeps_to_its_business, EnsureState,
};
use crate::protocol::{
    count_actions, count_requests, followed_by, is_save, lemma_count_actions_add,
    lemma_count_actions_push, lemma_count_requests_add, lemma_count_requests_push,
    lemma_run_part, part_of, resumed_view, run, Action, ActionView, Event, EventView, Step,
    StepView, Trace, World,
};
use crate::token::{
    law_resolve_token_ends, law_resolver_keeps_to_its_business, resolve_token,
    resolve_token_resume, resolve_token_run, resolve_token_start, ResolveState,
};
use vstd::prelude::*;

verus! {

/// The part of a run that is under way. A run that is done has either
/// delivered its message or failed.
#[derive(Debug, Clone, Copy, PartialEq, Eq, Structural)]
pub enum SessionState {
    /// The run has started: a token is being resolved.
    Resolving(ResolveState),
    /// A token is resolved and is being written back.
    Persisting,
    /// The token is kept: membership of the room is being seen to.
    Ensuring(EnsureState),
    /// Membership is ensured: the message is being delivered.
    Delivering(SendMessageState),
}

/// A run that is under way: what it is to send where, as whom, and how far
/// it has come.
#[derive(Debug, PartialEq, Eq)]
pub struct Session {
    pub state: SessionState,
    pub config: Config,
    pub room: String,
    pub message: String,
}

/// [`Session`] in specifications.
pub struct SessionView {
    pub state: SessionState,
    pub config: ConfigView,
    pub room: Seq<char>,
    pub message: Seq<char>,
}

impl View for Session {
    type V = SessionView;

    open spec fn view(&self) -> SessionView {
        SessionView {
            state: self.state,
            config: self.config@,
            room: self.room@,
            message: self.message@,
        }
    }
}

impl Clone for Session {
    fn clone(&self) -> (copy: Self)
        ensures
            copy == *self,
    {
        Session {
            state: self.state,
            config: self.config.clone(),
            room: self.room.clone(),
            message: self.message.clone(),
        }
    }
}

/// The delivery as the last part of a run: its result is the run's.
pub open spec fn session_delivering(
    config: ConfigView,
    room: Seq<char>,
    message: Seq<char>,
    step: StepView<SendMessageState, ()>,
) -> StepView<SessionView, ()> {
    match step {
        StepView::Next(state, action) => StepView::Next(
            SessionView { state: SessionState::Delivering(state), config, room, message },
            action,
        ),
        StepView::Done(outcome) => StepView::Done(outcome),
    }
}

/// The membership guarantor as a part of a run: once the account is a
/// member the delivery starts; without membership nothing is sent.
pub open spec fn session_ensuring(
    config: ConfigView,
    room: Seq<char>,
    message: Seq<char>,
    step: StepView<EnsureState, ()>,
) -> StepView<SessionView, ()> {
    match step {
        StepView::Next(state, action) => StepView::Next(
            SessionView { state: SessionState::Ensuring(state), config, room, message },
            action,
        ),
        StepView::Done(Ok(_)) => session_delivering(
            config,
            room,
            message,
            send_message_start(message, room, config),
        ),
        StepView::Done(Err(error)) => StepView::Done(Err(error)),
    }
}

/// What follows the writing back of the token: membership, if the
/// credentials were written; the end of the run, if they could not be.
pub open spec fn session_persisted(
    config: ConfigView,
    room: Seq<char>,
    message: Seq<char>,
    saved: Result<(), ConfigErrorView>,
) -> StepView<SessionView, ()> {
    match saved {
        Ok(_) => session_ensuring(config, room, message, ensure_member_start(room, config)),
        Err(error) => StepView::Done(Err(ApiErrorView::Config(error))),
    }
}

/// The token resolver as the first part of a run: a resolved token becomes
/// the stored one and is written back before anything else; a resolver that
/// fails ends the run.
pub open spec fn session_resolving(
    config: ConfigView,
    room: Seq<char>,
    message: Seq<char>,
    step: StepView<ResolveState, Seq<char>>,
) -> StepView<SessionView, ()> {
    match step {
        StepView::Next(state, action) => StepView::Next(
            SessionView { state: SessionState::Resolving(state), config, room, message },
            action,
        ),
        StepView::Done(Ok(token)) => StepView::Next(
            SessionView {
                state: SessionState::Persisting,
                config: config.with_token(token),
                room,
                message,
            },
            ActionView::Save(config.with_token(token)),
        ),
        StepView::Done(Err(error)) => StepView::Done(Err(error)),
    }
}

/// A run waits for what the part that is under way waits for; while the
/// token is written back, for the word that it was.
pub open spec fn session_resume(session: SessionView, event: EventView) -> Option<
    StepView<SessionView, ()>,
> {
    let SessionView { state, config, room, message } = session;
    match state {
        SessionState::Resolving(resolver) => match resolve_token_resume(resolver, config, event) {
            Some(step) => Some(session_resolving(config, room, message, step)),
            None => None,
        },
        SessionState::Persisting => match event {
            EventView::Saved(saved) => Some(session_persisted(config, room, message, saved)),
            _ => None,
        },
        SessionState::Ensuring(guarantor) => match ensure_member_resume(
            guarantor,
            room,
            config,
            event,
        ) {
            Some(step) => Some(session_ensuring(config, room, message, step)),
            None => None,
        },
        SessionState::Delivering(delivery) => match send_message_resume(
            delivery,
            room,
            config,
            event,
        ) {
            Some(step) => Some(session_delivering(config, room, message, step)),
            None => None,
        },
    }
}

/// A run starts from the credentials as they were loaded. Credentials that
/// could not be loaded end it at once.
pub open spec fn perform_send_message_start(
    loaded: Result<ConfigView, ConfigErrorView>,
    room: Seq<char>,
    message: Seq<char>,
) -> StepView<SessionView, ()> {
    match loaded {
        Ok(config) => session_resolving(config, room, message, resolve_token_start(config)),
        Err(error) => StepView::Done(Err(ApiErrorView::Config(error))),
    }
}

/// The view of credentials as they were loaded.
pub open spec fn loaded_view(loaded: Result<Config, ConfigError>) -> Result<
    ConfigView,
    ConfigErrorView,
> {
    match loaded {
        Ok(config) => Ok(config@),
        Err(error) => Err(error@),
    }
}

fn delivering(
    config: Config,
    room: String,
    message: String,
    step: Step<SendMessageState, ()>,
) -> (next: Step<Session, ()>)
    ensures
        next@ == session_delivering(config@, room@, message@, step@),
{
    match step {
        Step::Next(state, action) => Step::Next(
            Session { state: SessionState::Delivering(state), config, room, message },
            action,
        ),
        Step::Done(outcome) => Step::Done(outcome),
    }
}

fn ensuring(
    config: Config,
    room: String,
    message: String,
    step: Step<EnsureState, ()>,
) -> (next: Step<Session, ()>)
    ensures
        next@ == session_ensuring(config@, room@, message@, step@),
{
    match step {
        Step::Next(state, action) => Step::Next(
            Session { state: SessionState::Ensuring(state), config, room, message },
            action,
        ),
        Step::Done(Ok(_)) => {
            let step = send_message(message.as_str(), room.as_str(), &config);
            delivering(config, room, message, step)
        },
        Step::Done(Err(error)) => Step::Done(Err(error)),
    }
}

fn persisted(
    config: Config,
    room: String,
    message: String,
    saved: Result<(), ConfigError>,
) -> (next: Step<Session, ()>)
    ensures
        next@ == session_persisted(
            config@,
            room@,
            message@,
            match saved {
                Ok(_) => Ok(()),
                Err(error) => Err(error@),
            },
        ),
{
    match saved {
        Ok(_) => {
            let step = ensure_member(room.as_str(), &config);
            ensuring(config, room, message, step)
        },
        Err(error) => Step::Done(Err(ApiError::Config(error))),
    }
}

fn resolving(
    config: Config,
    room: String,
    message: String,
    step: Step<ResolveState, String>,
) -> (next: Step<Session, ()>)
    ensures
        next@ == session_resolving(config@, room@, message@, step@),
{
    match step {
        Step::Next(state, action) => Step::Next(
            Session { state: SessionState::Resolving(state), config, room, message },
            action,
        ),
        Step::Done(Ok(token)) => {
            let config = config.with_token(token);
            let save = Action::Save(config.clone());
            Step::Next(Session { state: SessionState::Persisting, config, room, message }, save)
        },
        Step::Done(Err(error)) => Step::Done(Err(error)),
    }
}

impl Session {
    /// Takes the run one event further. Where `event` does not answer the
    /// action that the run waits for, the result is `None` and the run is
    /// over.
    pub fn resume(self, event: Event) -> (resumed: Option<Step<Session, ()>>)
        ensures
            resumed_view(resumed) == session_resume(self@, event@),
    {
        let Session { state, config, room, message } = self;
        match state {
            SessionState::Resolving(resolver) => match resolver.resume(&config, event) {
                Some(step) => Some(resolving(config, room, message, step)),
                None => None,
            },
            SessionState::Persisting => match event {
                Event::Saved(saved) => Some(persisted(config, room, message, saved)),
                _ => None,
            },
            SessionState::Ensuring(guarantor) => match guarantor.resume(
                room.as_str(),
                &config,
                event,
            ) {
                Some(step) => Some(ensuring(config, room, message, step)),
                None => None,
            },
            SessionState::Delivering(delivery) => match delivery.resume(
                room.as_str(),
                &config,
                event,
            ) {
                Some(step) => Some(delivering(config, room, message, step)),
                None => None,
            },
        }
    }
}

/// Starts a run that sends `message` to `room` with the credentials that
/// were loaded.
pub fn perform_send_message(
    loaded: Result<Config, ConfigError>,
    room: &str,
    message: &str,
) -> (step: Step<Session, ()>)
    ensures
        step@ == perform_send_message_start(loaded_view(loaded), room@, message@),
{
    match loaded {
        Ok(config) => {
            let step = resolve_token(&config);
            resolving(config, room.to_owned(), message.to_owned(), step)
        },
        Err(error) => Step::Done(Err(ApiError::Config(error))),
    }
}

/// A whole run against `world`, from credentials that were loaded.
pub open spec fn perform_send_message_run(
    loaded: Result<ConfigView, ConfigErrorView>,
    room: Seq<char>,
    message: Seq<char>,
    world: World,
) -> Trace<()> {
    run(
        |session: SessionView, event: EventView| session_resume(session, event),
        perform_send_message_start(loaded, room, message),
        world,
        10,
    )
}

/// A run as the sequence of its parts: the resolver; then the writing back
/// of the token it found; then the guarantor and the delivery, both with
/// that token. Each part starts only where the one before it succeeded, and
/// the first failure is the run's.
pub open spec fn sequence_of_parts(
    config: ConfigView,
    room: Seq<char>,
    message: Seq<char>,
    world: World,
) -> Trace<()> {
    let resolved = resolve_token_run(config, world);
    match resolved.outcome {
        Some(Ok(token)) => {
            let kept = config.with_token(token);
            let saving = resolved.actions.push(ActionView::Save(kept));
            match (world.save)(kept) {
                Ok(_) => {
                    let rest = sequence_from_membership(kept, room, message, world);
                    Trace { actions: saving + rest.actions, outcome: rest.outcome }
                },
                Err(error) => Trace {
                    actions: saving,
                    outcome: Some(Err(ApiErrorView::Config(error))),
                },
            }
        },
        Some(Err(error)) => Trace { actions: resolved.actions, outcome: Some(Err(error)) },
        None => Trace { actions: resolved.actions, outcome: None },
    }
}

/// What a run does once the token is written back: it sees to membership
/// and, with that, delivers.
pub open spec fn sequence_from_membership(
    config: ConfigView,
    room: Seq<char>,
    message: Seq<char>,
    world: World,
) -> Trace<()> {
    let ensured = ensure_member_run(room, config, world);
    match ensured.outcome {
        Some(Ok(_)) => followed_by(ensured, send_message_run(message, room, config, world)),
        _ => ensured,
    }
}

proof fn lemma_run_from_delivery(
    config: ConfigView,
    room: Seq<char>,
    message: Seq<char>,
    world: World,
)
    ensures
        run(
            |session: SessionView, event: EventView| session_resume(session, event),
            session_delivering(config, room, message, send_message_start(message, room, config)),
            world,
            2,
        ) == send_message_run(message, room, config, world),
        send_message_run(message, room, config, world).outcome is Some,
{
    let whole = |session: SessionView, event: EventView| session_resume(session, event);
    let part = |state: SendMessageState, event: EventView|
        send_message_resume(state, room, config, event);
    let wrap = |state: SendMessageState|
        SessionView { state: SessionState::Delivering(state), config, room, message };
    let after = |outcome: Result<(), ApiErrorView>| StepView::<SessionView, ()>::Done(outcome);
    let start = send_message_start(message, room, config);
    law_send_message_ends(message, room, config, world);
    assert forall|state: SendMessageState, event: EventView| #[trigger]
        whole(wrap(state), event) == (match part(state, event) {
            Some(next) => Some(part_of(wrap, after, next)),
            None => None,
        }) by {}
    lemma_run_part(part, whole, wrap, after, start, world, 2, 0);
}

proof fn lemma_run_from_membership(
    config: ConfigView,
    room: Seq<char>,
    message: Seq<char>,
    world: World,
)
    ensures
        run(
            |session: SessionView, event: EventView| session_resume(session, event),
            session_ensuring(config, room, message, ensure_member_start(room, config)),
            world,
            5,
        ) == sequence_from_membership(config, room, message, world),
        sequence_from_membership(config, room, message, world).outcome is Some,
{
    let whole = |session: SessionView, event: EventView| session_resume(session, event);
    let part = |state: EnsureState, event: EventView|
        ensure_member_resume(state, room, config, event);
    let wrap = |state: EnsureState|
        SessionView { state: SessionState::Ensuring(state), config, room, message };
    let after = |outcome: Result<(), ApiErrorView>|
        session_ensuring(config, room, message, StepView::Done(outcome));
    let start = ensure_member_start(room, config);
    law_ensure_member_ends(room, config, world);
    lemma_run_from_delivery(config, room, message, world);
    assert forall|state: EnsureState, event: EventView| #[trigger]
        whole(wrap(state), event) == (match part(state, event) {
            Some(next) => Some(part_of(wrap, after, next)),
            None => None,
        }) by {}
    lemma_run_part(part, whole, wrap, after, start, world, 3, 2);
}

/// A run is the sequence of its parts, in every world.
pub proof fn law_run_is_sequence_of_parts(
    config: ConfigView,
    room: Seq<char>,
    message: Seq<char>,
    world: World,
)
    ensures
        perform_send_message_run(Ok(config), room, message, world) == sequence_of_parts(
            config,
            room,
            message,
            world,
        ),
        sequence_of_parts(config, room, message, world).outcome is Some,
{
    let whole = |session: SessionView, event: EventView| session_resume(session, event);
    let part = |state: ResolveState, event: EventView| resolve_token_resume(state, config, event);
    let wrap = |state: ResolveState|
        SessionView { state: SessionState::Resolving(state), config, room, message };
    let after = |outcome: Result<Seq<char>, ApiErrorView>|
        session_resolving(config, room, message, StepView::Done(outcome));
    let start = resolve_token_start(config);
    law_resolve_token_ends(config, world);
    assert forall|state: ResolveState, event: EventView| #[trigger]
        whole(wrap(state), event) == (match part(state, event) {
            Some(next) => Some(part_of(wrap, after, next)),
            None => None,
        }) by {}
    let resolved = resolve_token_run(config, world);
    if let Ok(token) = resolved.outcome->Some_0 {
        let kept = config.with_token(token);
        let save = ActionView::Save(kept);
        let tail = sequence_from_membership(kept, room, message, world);
        lemma_run_from_membership(kept, room, message, world);
        reveal_with_fuel(run, 2);
        assert(resolved.actions + (seq![save] + tail.actions) =~= resolved.actions.push(save)
            + tail.actions);
        assert(resolved.actions + seq![save] =~= resolved.actions.push(save));
    }
    lemma_run_part(part, whole, wrap, after, start, world, 4, 6);
}

/// Credentials need a token or a password: a run with neither fails for
/// want of a password, and asks nothing of anybody.
pub proof fn law_no_run_without_credentials(
    config: ConfigView,
    room: Seq<char>,
    message: Seq<char>,
    world: World,
)
    requires
        config.token is None,
        config.password is None,
    ensures
        perform_send_message_run(Ok(config), room, message, world).outcome == Some(
            Err::<(), _>(ApiErrorView::MissingPassword),
        ),
        perform_send_message_run(Ok(config), room, message, world).actions == Seq::<
            ActionView,
        >::empty(),
{
}

/// A token that was resolved is written back before anything else is done
/// with it: the resolver's actions come first in the run, the writing back
/// of the credentials with that token comes next, and whatever the run does
/// for the room comes after.
pub proof fn law_resolved_token_is_saved_first(
    config: ConfigView,
    room: Seq<char>,
    message: Seq<char>,
    world: World,
    token: Seq<char>,
)
    requires
        resolve_token_run(config, world).outcome == Some(Ok::<_, ApiErrorView>(token)),
    ensures
        ({
            let resolved = resolve_token_run(config, world).actions;
            let actions = perform_send_message_run(Ok(config), room, message, world).actions;
            &&& resolved.len() < actions.len()
            &&& actions.subrange(0, resolved.len() as int) == resolved
            &&& actions[resolved.len() as int] == ActionView::Save(config.with_token(token))
        }),
{
    law_run_is_sequence_of_parts(config, room, message, world);
    let resolved = resolve_token_run(config, world).actions;
    let actions = perform_send_message_run(Ok(config), room, message, world).actions;
}

/// A resolver that fails ends the run with its failure: nothing is written
/// back, and nothing is asked about the room.
pub proof fn law_failed_resolver_ends_run(
    config: ConfigView,
    room: Seq<char>,
    message: Seq<char>,
    world: World,
    error: ApiErrorView,
)
    requires
        resolve_token_run(config, world).outcome == Some(Err::<Seq<char>, _>(error)),
    ensures
        perform_send_message_run(Ok(config), room, message, world).outcome == Some(
            Err::<(), _>(error),
        ),
        perform_send_message_run(Ok(config), room, message, world).actions == resolve_token_run(
            config,
            world,
        ).actions,
{
    law_run_is_sequence_of_parts(config, room, message, world);
}

/// Whether a run in `world` comes as far as the delivery: a token is
/// resolved and written back, and the account is a member of the room or
/// joins it.
pub open spec fn membership_ensured(config: ConfigView, room: Seq<char>, world: World) -> bool {
    resolve_token_run(config, world).outcome matches Some(Ok(token)) && (world.save)(
        config.with_token(token),
    ) is Ok && ensure_member_run(room, config.with_token(token), world).outcome matches Some(
        Ok(_),
    )
}

/// The credentials are written at most once in a run: once where a token
/// was resolved, and not at all where none was.
pub proof fn law_credentials_written_at_most_once(
    config: ConfigView,
    room: Seq<char>,
    message: Seq<char>,
    world: World,
)
    ensures
        count_actions(
            perform_send_message_run(Ok(config), room, message, world).actions,
            |action: ActionView| is_save(action),
        ) == (if resolve_token_run(config, world).outcome matches Some(Ok(_)) {
            1nat
        } else {
            0nat
        }),
{
    let saves = |action: ActionView| is_save(action);
    let resolved = resolve_token_run(config, world);
    law_run_is_sequence_of_parts(config, room, message, world);
    law_resolver_keeps_to_its_business(config, world);
    if let Some(Ok(token)) = resolved.outcome {
        let kept = config.with_token(token);
        let saving = resolved.actions.push(ActionView::Save(kept));
        let ensured = ensure_member_run(room, kept, world);
        let sent = send_message_run(message, room, kept, world);
        lemma_count_actions_push(resolved.actions, ActionView::Save(kept), saves);
        law_guarantor_keeps_to_its_business(room, kept, world);
        law_delivery_writes_nothing(message, room, kept, world);
        lemma_count_actions_add(saving, ensured.actions, saves);
        lemma_count_actions_add(saving, ensured.actions + sent.actions, saves);
        lemma_count_actions_add(ensured.actions, sent.actions, saves);
    }
}

/// A message is sent only where membership is ensured, and then once: no
/// run delivers to a room that the account is not known to be in, and no
/// run delivers twice.
pub proof fn law_message_needs_membership(
    config: ConfigView,
    room: Seq<char>,
    message: Seq<char>,
    world: World,
)
    ensures
        count_requests(
            perform_send_message_run(Ok(config), room, message, world).actions,
            |request: RequestView| is_message_call(request),
        ) == (if membership_ensured(config, room, world) {
            1nat
        } else {
            0nat
        }),
{
    let messages = |request: RequestView| is_message_call(request);
    let resolved = resolve_token_run(config, world);
    law_run_is_sequence_of_parts(config, room, message, world);
    law_resolver_keeps_to_its_business(config, world);
    if let Some(Ok(token)) = resolved.outcome {
        let kept = config.with_token(token);
        let saving = resolved.actions.push(ActionView::Save(kept));
        let ensured = ensure_member_run(room, kept, world);
        let sent = send_message_run(message, room, kept, world);
        lemma_count_requests_push(resolved.actions, ActionView::Save(kept), messages);
        law_guarantor_keeps_to_its_business(room, kept, world);
        law_delivery_is_one_request(message, room, kept, world, token);
        lemma_count_requests_add(saving, ensured.actions, messages);
        lemma_count_requests_add(saving, ensured.actions + sent.actions, messages);
        lemma_count_requests_add(ensured.actions, sent.actions, messages);
    }
}

/// The credentials that show a new user what to fill in.
pub open spec fn example_config() -> ConfigView {
    ConfigView {
        base_url: "https://example.org"@,
        local_username: "matrix-bot"@,
        full_username: "@matrix-bot:example.org"@,
        password: Some("Plaintext password, can be omitted if you have a token already"@),
        token: Some(
            "access_token from previous api calls, remove to populate via password driven login"@,
        ),
    }
}

/// Decides what generating the example amounts to: nothing but a failure
/// where credentials exist already, which are never overwritten; otherwise
/// the example, for the caller to write.
pub fn perform_generate(exists: bool) -> (example: Result<Config, ApiError>)
    ensures
        exists ==> example == Err::<Config, _>(ApiError::ConfigAlreadyExists),
        !exists ==> example is Ok && example->Ok_0@ == example_config(),
{
    if exists {
        return Err(ApiError::ConfigAlreadyExists);
    }
    Ok(
        Config {
            base_url: "https://example.org".to_owned(),
            local_username: "matrix-bot".to_owned(),
            full_username: "@matrix-bot:example.org".to_owned(),
            password: Some(
                "Plaintext password, can be omitted if you have a token already".to_owned(),
            ),
            token: Some(
                "access_token from previous api calls, remove to populate via password driven login"
                    .to_owned(),
            ),
        },
    )
}

} // verus!
