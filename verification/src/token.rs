//! The token resolver: finds an access token that the server accepts.
//!
//! A stored token is checked first and kept if it is live. If there is none,
//! or the check fails, the resolver logs in with the password. A failed check
//! never ends the run: it is reported and the login takes over.

use crate::api::login::{
    granted_token, is_login_call, login, login_replied, login_request, login_resume, login_run,
    login_start, LoginState,
};
use crate::api::send_message::is_message_call;
use crate::api::verify_token::{
    verify_token, verify_token_request, verify_token_resume, verify_token_start,
    verify_token_verdict, VerifyTokenState,
};
use crate::api::ApiErrorView;
use crate::config::{Config, ConfigView};
use crate::exchange::{success_status, ReplyView, RequestView};
use crate::protocol::{
    count_actions, count_requests, is_request_of, is_save, lemma_count_requests_push,
    lemma_run_never, resumed_view, run, Action, ActionView, Event, EventView, Step, StepView,
    Trace, World,
};
use vstd::prelude::*;

verus! {

/// Where the resolver stands while it is not done.
#[derive(Debug, Clone, Copy, PartialEq, Eq, Structural)]
pub enum ResolveState {
    /// The stored token is being checked.
    Verifying(VerifyTokenState),
    /// The check failed and the user is being told.
    Reporting,
    /// The password login is under way.
    LoggingIn(LoginState),
}

impl View for ResolveState {
    type V = ResolveState;

    open spec fn view(&self) -> ResolveState {
        *self
    }
}

/// The password login as a part of the resolver.
pub open spec fn resolve_by_login(step: StepView<LoginState, Seq<char>>) -> StepView<
    ResolveState,
    Seq<char>,
> {
    match step {
        StepView::Next(state, action) => StepView::Next(ResolveState::LoggingIn(state), action),
        StepView::Done(outcome) => StepView::Done(outcome),
    }
}

/// The token check as a part of the resolver: a live token is the result;
/// a failed check is reported, not returned.
pub open spec fn resolve_by_check(step: StepView<VerifyTokenState, Seq<char>>) -> StepView<
    ResolveState,
    Seq<char>,
> {
    match step {
        StepView::Next(state, action) => StepView::Next(ResolveState::Verifying(state), action),
        StepView::Done(Ok(token)) => StepView::Done(Ok(token)),
        StepView::Done(Err(error)) => StepView::Next(
            ResolveState::Reporting,
            ActionView::Report(error),
        ),
    }
}

/// With a stored token the resolver starts by checking it, without one by
/// logging in.
pub open spec fn resolve_token_start(config: ConfigView) -> StepView<ResolveState, Seq<char>> {
    match config.token {
        Some(token) => resolve_by_check(verify_token_start(token, config)),
        None => resolve_by_login(login_start(config)),
    }
}

/// The resolver waits for what the part that is under way waits for;
/// after a report, for the word that it was made. The token that is checked
/// is the stored one.
pub open spec fn resolve_token_resume(
    state: ResolveState,
    config: ConfigView,
    event: EventView,
) -> Option<StepView<ResolveState, Seq<char>>> {
    match state {
        ResolveState::Verifying(check) => match config.token {
            Some(token) => match verify_token_resume(check, token, config, event) {
                Some(step) => Some(resolve_by_check(step)),
                None => None,
            },
            None => None,
        },
        ResolveState::Reporting => match event {
            EventView::Reported => Some(resolve_by_login(login_start(config))),
            _ => None,
        },
        ResolveState::LoggingIn(login) => match login_resume(login, config, event) {
            Some(step) => Some(resolve_by_login(step)),
            None => None,
        },
    }
}

fn by_login(step: Step<LoginState, String>) -> (resolving: Step<ResolveState, String>)
    ensures
        resolving@ == resolve_by_login(step@),
{
    match step {
        Step::Next(state, action) => Step::Next(ResolveState::LoggingIn(state), action),
        Step::Done(outcome) => Step::Done(outcome),
    }
}

fn by_check(step: Step<VerifyTokenState, String>) -> (resolving: Step<ResolveState, String>)
    ensures
        resolving@ == resolve_by_check(step@),
{
    match step {
        Step::Next(state, action) => Step::Next(ResolveState::Verifying(state), action),
        Step::Done(Ok(token)) => Step::Done(Ok(token)),
        Step::Done(Err(error)) => Step::Next(ResolveState::Reporting, Action::Report(error)),
    }
}

/// Starts the resolution of a token for the account of `config`.
pub fn resolve_token(config: &Config) -> (step: Step<ResolveState, String>)
    ensures
        step@ == resolve_token_start(config@),
{
    match &config.token {
        Some(token) => by_check(verify_token(token.as_str(), config)),
        None => by_login(login(config)),
    }
}

impl ResolveState {
    /// Takes the resolution one event further, or gives `None` where `event`
    /// is not what the resolution waits for. `config` is the one that the
    /// resolution was started with.
    pub fn resume(self, config: &Config, event: Event) -> (resumed: Option<
        Step<ResolveState, String>,
    >)
        ensures
            resumed_view(resumed) == resolve_token_resume(self, config@, event@),
    {
        match self {
            ResolveState::Verifying(check) => match &config.token {
                Some(token) => match check.resume(token.as_str(), config, event) {
                    Some(step) => Some(by_check(step)),
                    None => None,
                },
                None => None,
            },
            ResolveState::Reporting => match event {
                Event::Reported => Some(by_login(login(config))),
                _ => None,
            },
            ResolveState::LoggingIn(state) => match state.resume(config, event) {
                Some(step) => Some(by_login(step)),
                None => None,
            },
        }
    }
}

/// The resolver's whole dialogue with `world`.
pub open spec fn resolve_token_run(config: ConfigView, world: World) -> Trace<Seq<char>> {
    run(
        |state: ResolveState, event: EventView| resolve_token_resume(state, config, event),
        resolve_token_start(config),
        world,
        4,
    )
}

/// Whether `world` accepts the stored token `token`: it answers the profile
/// lookup with a success status.
pub open spec fn token_live(config: ConfigView, world: World, token: Seq<char>) -> bool {
    (world.http)(verify_token_request(token, config)) matches ReplyView::Response { status, .. }
        && success_status(status)
}

/// What the user is told of a stored token that `world` does not accept.
pub open spec fn token_rejection(
    config: ConfigView,
    world: World,
    token: Seq<char>,
) -> ApiErrorView {
    verify_token_verdict(token, config, (world.http)(verify_token_request(token, config)))->Err_0
}

/// The resolver comes to a result in every world, within four actions.
pub proof fn law_resolve_token_ends(config: ConfigView, world: World)
    ensures
        resolve_token_run(config, world).outcome is Some,
{
    reveal_with_fuel(run, 5);
}

/// A stored token that the server accepts is the result, unchanged. The
/// profile lookup is the only action: there is no login call.
pub proof fn law_live_token_is_kept(config: ConfigView, world: World, token: Seq<char>)
    requires
        config.token == Some(token),
        token_live(config, world, token),
    ensures
        resolve_token_run(config, world).outcome == Some(Ok::<_, ApiErrorView>(token)),
        resolve_token_run(config, world).actions == seq![
            ActionView::Http(verify_token_request(token, config)),
        ],
        count_requests(
            resolve_token_run(config, world).actions,
            |request: RequestView| is_login_call(request),
        ) == 0,
{
    reveal_with_fuel(run, 5);
    let lookup = ActionView::Http(verify_token_request(token, config));
    lemma_count_requests_push(Seq::empty(), lookup, |request: RequestView| is_login_call(request));
}

/// Where there is no stored token, or the server turns it down, and there
/// is a password, the resolver makes exactly one login call. Its result is
/// the login's: the token that the response grants, or the login's failure.
pub proof fn law_login_takes_over(config: ConfigView, world: World, password: Seq<char>)
    requires
        config.password == Some(password),
        config.token matches Some(token) ==> !token_live(config, world, token),
    ensures
        count_requests(
            resolve_token_run(config, world).actions,
            |request: RequestView| is_login_call(request),
        ) == 1,
        resolve_token_run(config, world).outcome == login_run(config, world).outcome,
        match granted_token(config, world, password) {
            Some(token) => resolve_token_run(config, world).outcome == Some(
                Ok::<_, ApiErrorView>(token),
            ),
            None => resolve_token_run(config, world).outcome matches Some(Err(_)),
        },
{
    reveal_with_fuel(run, 5);
    let kind = |request: RequestView| is_login_call(request);
    let trace = resolve_token_run(config, world);
    let call = ActionView::Http(login_request(config, password));
    let head: Seq<ActionView> = match config.token {
        Some(token) => {
            let lookup = ActionView::Http(verify_token_request(token, config));
            let report = ActionView::Report(token_rejection(config, world, token));
            lemma_count_requests_push(Seq::empty(), lookup, kind);
            lemma_count_requests_push(Seq::empty().push(lookup), report, kind);
            Seq::empty().push(lookup).push(report)
        },
        None => Seq::empty(),
    };
    lemma_count_requests_push(head, call, kind);
    match login_replied(config, (world.http)(login_request(config, password))) {
        StepView::Next(_, decode) => {
            assert(trace.actions =~= head.push(call).push(decode));
            lemma_count_requests_push(head.push(call), decode, kind);
        },
        StepView::Done(_) => {
            assert(trace.actions =~= head.push(call));
        },
    }
}

/// Without a stored token and without a password the resolver fails for
/// want of a password, and asks nothing of anybody.
pub proof fn law_nothing_to_resolve_with(config: ConfigView, world: World)
    requires
        config.token is None,
        config.password is None,
    ensures
        resolve_token_run(config, world).outcome == Some(
            Err::<Seq<char>, _>(ApiErrorView::MissingPassword),
        ),
        resolve_token_run(config, world).actions == Seq::<ActionView>::empty(),
{
}

/// Where the server turns the stored token down and there is no password,
/// the resolver fails for want of a password. The check is reported; there
/// is no login call.
pub proof fn law_rejected_token_without_password(
    config: ConfigView,
    world: World,
    token: Seq<char>,
)
    requires
        config.token == Some(token),
        config.password is None,
        !token_live(config, world, token),
    ensures
        resolve_token_run(config, world).outcome == Some(
            Err::<Seq<char>, _>(ApiErrorView::MissingPassword),
        ),
        resolve_token_run(config, world).actions == seq![
            ActionView::Http(verify_token_request(token, config)),
            ActionView::Report(token_rejection(config, world, token)),
        ],
        count_requests(
            resolve_token_run(config, world).actions,
            |request: RequestView| is_login_call(request),
        ) == 0,
{
    reveal_with_fuel(run, 5);
    let kind = |request: RequestView| is_login_call(request);
    let lookup = ActionView::Http(verify_token_request(token, config));
    let report = ActionView::Report(token_rejection(config, world, token));
    assert(resolve_token_run(config, world).actions =~= Seq::empty().push(lookup).push(report));
    lemma_count_requests_push(Seq::empty(), lookup, kind);
    lemma_count_requests_push(Seq::empty().push(lookup), report, kind);
}

/// The resolver keeps to its own business: it writes no credentials and
/// delivers no message.
pub proof fn law_resolver_keeps_to_its_business(config: ConfigView, world: World)
    ensures
        count_actions(
            resolve_token_run(config, world).actions,
            |action: ActionView| is_save(action),
        ) == 0,
        count_requests(
            resolve_token_run(config, world).actions,
            |request: RequestView| is_message_call(request),
        ) == 0,
{
    let resume = |state: ResolveState, event: EventView|
        resolve_token_resume(state, config, event);
    lemma_run_never(
        resume,
        resolve_token_start(config),
        world,
        4,
        |action: ActionView| is_save(action),
    );
    lemma_run_never(
        resume,
        resolve_token_start(config),
        world,
        4,
        |action: ActionView| is_request_of(action, |request: RequestView| is_message_call(request)),
    );
}

} // verus!
