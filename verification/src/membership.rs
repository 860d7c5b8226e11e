//! The membership guarantor: sees to it that the account is in the room.
//!
//! Membership is asked of the server on every run. An account that is a
//! member is left alone; one that is not joins, once.

use crate::api::join_room::{
    join_room, join_room_request, join_room_resume, join_room_start, JoinRoomState,
};
use crate::api::send_message::is_message_call;
use crate::api::verify_in_room::{
    joined_members, law_query_reads_joined_members, verify_in_room, verify_in_room_replied,
    verify_in_room_request, verify_in_room_resume, verify_in_room_run, verify_in_room_start,
    VerifyInRoomState,
};
use crate::api::ApiErrorView;
use crate::config::{join_url, room_members_url, Config, ConfigView};
use crate::exchange::{success_status, Method, ReplyView, RequestView};
use crate::protocol::{
    count_actions, count_requests, is_request_of, is_save, lemma_count_requests_add,
    lemma_count_requests_push, lemma_run_never, resumed_view, run, ActionView, Event, EventView,
    Step, StepView, Trace, World,
};
use vstd::prelude::*;

verus! {

/// Where the guarantor stands while it is not done.
#[derive(Debug, Clone, Copy, PartialEq, Eq, Structural)]
pub enum EnsureState {
    /// The members of the room are being asked for.
    Querying(VerifyInRoomState),
    /// The account is joining the room.
    Joining(JoinRoomState),
}

impl View for EnsureState {
    type V = EnsureState;

    open spec fn view(&self) -> EnsureState {
        *self
    }
}

/// The join as a part of the guarantor.
pub open spec fn ensure_by_join(step: StepView<JoinRoomState, ()>) -> StepView<EnsureState, ()> {
    match step {
        StepView::Next(state, action) => StepView::Next(EnsureState::Joining(state), action),
        StepView::Done(outcome) => StepView::Done(outcome),
    }
}

/// The membership query as a part of the guarantor: a member is done, one
/// who is none goes on to join, and a query that failed fails the guarantor.
pub open spec fn ensure_by_query(
    room: Seq<char>,
    config: ConfigView,
    step: StepView<VerifyInRoomState, bool>,
) -> StepView<EnsureState, ()> {
    match step {
        StepView::Next(state, action) => StepView::Next(EnsureState::Querying(state), action),
        StepView::Done(Ok(member)) => if member {
            StepView::Done(Ok(()))
        } else {
            ensure_by_join(join_room_start(room, config))
        },
        StepView::Done(Err(error)) => StepView::Done(Err(error)),
    }
}

/// The guarantor starts with the membership query.
pub open spec fn ensure_member_start(room: Seq<char>, config: ConfigView) -> StepView<
    EnsureState,
    (),
> {
    ensure_by_query(room, config, verify_in_room_start(room, config))
}

/// The guarantor waits for what the part that is under way waits for.
pub open spec fn ensure_member_resume(
    state: EnsureState,
    room: Seq<char>,
    config: ConfigView,
    event: EventView,
) -> Option<StepView<EnsureState, ()>> {
    match state {
        EnsureState::Querying(query) => match verify_in_room_resume(query, room, config, event) {
            Some(step) => Some(ensure_by_query(room, config, step)),
            None => None,
        },
        EnsureState::Joining(join) => match join_room_resume(join, room, config, event) {
            Some(step) => Some(ensure_by_join(step)),
            None => None,
        },
    }
}

fn by_join(step: Step<JoinRoomState, ()>) -> (ensuring: Step<EnsureState, ()>)
    ensures
        ensuring@ == ensure_by_join(step@),
{
    match step {
        Step::Next(state, action) => Step::Next(EnsureState::Joining(state), action),
        Step::Done(outcome) => Step::Done(outcome),
    }
}

fn by_query(room: &str, config: &Config, step: Step<VerifyInRoomState, bool>) -> (ensuring: Step<
    EnsureState,
    (),
>)
    ensures
        ensuring@ == ensure_by_query(room@, config@, step@),
{
    match step {
        Step::Next(state, action) => Step::Next(EnsureState::Querying(state), action),
        Step::Done(Ok(member)) => if member {
            Step::Done(Ok(()))
        } else {
            by_join(join_room(room, config))
        },
        Step::Done(Err(error)) => Step::Done(Err(error)),
    }
}

/// Starts to make sure that the account of `config` is a member of `room`.
pub fn ensure_member(room: &str, config: &Config) -> (step: Step<EnsureState, ()>)
    ensures
        step@ == ensure_member_start(room@, config@),
{
    by_query(room, config, verify_in_room(room, config))
}

impl EnsureState {
    /// Takes the guarantor one event further, or gives `None` where `event`
    /// is not what the guarantor waits for. `room` and `config` are those
    /// that it was started with.
    pub fn resume(self, room: &str, config: &Config, event: Event) -> (resumed: Option<
        Step<EnsureState, ()>,
    >)
        ensures
            resumed_view(resumed) == ensure_member_resume(self, room@, config@, event@),
    {
        match self {
            EnsureState::Querying(query) => match query.resume(room, config, event) {
                Some(step) => Some(by_query(room, config, step)),
                None => None,
            },
            EnsureState::Joining(join) => match join.resume(room, config, event) {
                Some(step) => Some(by_join(step)),
                None => None,
            },
        }
    }
}

/// The guarantor's whole dialogue with `world`.
pub open spec fn ensure_member_run(room: Seq<char>, config: ConfigView, world: World) -> Trace<()> {
    run(
        |state: EnsureState, event: EventView| ensure_member_resume(state, room, config, event),
        ensure_member_start(room, config),
        world,
        3,
    )
}

/// Whether `request` asks for the members of `room`.
pub open spec fn is_membership_query(
    room: Seq<char>,
    config: ConfigView,
    request: RequestView,
) -> bool {
    request.method == Method::Get && request.url == room_members_url(config.base_url, room)
}

/// Whether `request` is a join call for `room`.
pub open spec fn is_join_call(room: Seq<char>, config: ConfigView, request: RequestView) -> bool {
    request.method == Method::Post && request.url == join_url(config.base_url, room)
}

/// The guarantor comes to a result in every world, within three actions.
pub proof fn law_ensure_member_ends(room: Seq<char>, config: ConfigView, world: World)
    ensures
        ensure_member_run(room, config, world).outcome is Some,
{
    reveal_with_fuel(run, 4);
}

/// Where the membership query finds the account a member, the guarantor
/// succeeds on that query alone.
pub proof fn law_member_is_left_alone(room: Seq<char>, config: ConfigView, world: World)
    requires
        verify_in_room_run(room, config, world).outcome == Some(Ok::<_, ApiErrorView>(true)),
    ensures
        ensure_member_run(room, config, world).outcome == Some(Ok::<_, ApiErrorView>(())),
        ensure_member_run(room, config, world).actions == verify_in_room_run(
            room,
            config,
            world,
        ).actions,
        count_requests(
            ensure_member_run(room, config, world).actions,
            |request: RequestView| is_join_call(room, config, request),
        ) == 0,
        count_requests(
            ensure_member_run(room, config, world).actions,
            |request: RequestView| !is_membership_query(room, config, request),
        ) == 0,
{
    reveal_with_fuel(run, 4);
    let joins = |request: RequestView| is_join_call(room, config, request);
    let others = |request: RequestView| !is_membership_query(room, config, request);
    let token = config.token->Some_0;
    let query = ActionView::Http(verify_in_room_request(room, config, token));
    let trace = ensure_member_run(room, config, world);
    let decode = verify_in_room_replied(
        room,
        config,
        (world.http)(verify_in_room_request(room, config, token)),
    )->Next_1;
    assert(trace.actions =~= Seq::empty().push(query).push(decode));
    lemma_count_requests_push(Seq::empty(), query, joins);
    lemma_count_requests_push(Seq::empty().push(query), decode, joins);
    lemma_count_requests_push(Seq::empty(), query, others);
    lemma_count_requests_push(Seq::empty().push(query), decode, others);
}

/// The guarantor is idempotent: run twice in a row on an account whose full
/// identity is among the joined members, in worlds that may differ but agree
/// on that, it succeeds twice, and all that both runs ask of the server are
/// membership queries. There is no join call.
pub proof fn law_ensure_member_idempotent(
    room: Seq<char>,
    config: ConfigView,
    first: World,
    second: World,
    token: Seq<char>,
)
    requires
        config.token == Some(token),
        joined_members(room, config, first, token) matches Some(members) && members.contains(
            config.full_username,
        ),
        joined_members(room, config, second, token) matches Some(members) && members.contains(
            config.full_username,
        ),
    ensures
        ensure_member_run(room, config, first).outcome == Some(Ok::<_, ApiErrorView>(())),
        ensure_member_run(room, config, second).outcome == Some(Ok::<_, ApiErrorView>(())),
        count_requests(
            ensure_member_run(room, config, first).actions + ensure_member_run(
                room,
                config,
                second,
            ).actions,
            |request: RequestView| is_join_call(room, config, request),
        ) == 0,
        count_requests(
            ensure_member_run(room, config, first).actions + ensure_member_run(
                room,
                config,
                second,
            ).actions,
            |request: RequestView| !is_membership_query(room, config, request),
        ) == 0,
{
    law_query_reads_joined_members(
        room,
        config,
        first,
        token,
        joined_members(room, config, first, token)->Some_0,
    );
    law_query_reads_joined_members(
        room,
        config,
        second,
        token,
        joined_members(room, config, second, token)->Some_0,
    );
    law_member_is_left_alone(room, config, first);
    law_member_is_left_alone(room, config, second);
    lemma_count_requests_add(
        ensure_member_run(room, config, first).actions,
        ensure_member_run(room, config, second).actions,
        |request: RequestView| is_join_call(room, config, request),
    );
    lemma_count_requests_add(
        ensure_member_run(room, config, first).actions,
        ensure_member_run(room, config, second).actions,
        |request: RequestView| !is_membership_query(room, config, request),
    );
}

/// Where the membership query finds the account no member, the guarantor
/// makes exactly one join call, and succeeds exactly when that call is
/// answered with a success status.
pub proof fn law_non_member_joins_once(
    room: Seq<char>,
    config: ConfigView,
    world: World,
    token: Seq<char>,
)
    requires
        config.token == Some(token),
        verify_in_room_run(room, config, world).outcome == Some(Ok::<_, ApiErrorView>(false)),
    ensures
        count_requests(
            ensure_member_run(room, config, world).actions,
            |request: RequestView| is_join_call(room, config, request),
        ) == 1,
        ensure_member_run(room, config, world).outcome is Some,
        ensure_member_run(room, config, world).outcome->Some_0 is Ok <==> (
        (world.http)(join_room_request(room, config, token)) matches ReplyView::Response {
            status,
            ..
        } && success_status(status)),
{
    reveal_with_fuel(run, 4);
    let joins = |request: RequestView| is_join_call(room, config, request);
    let query = ActionView::Http(verify_in_room_request(room, config, token));
    let join = ActionView::Http(join_room_request(room, config, token));
    let trace = ensure_member_run(room, config, world);
    let decode = verify_in_room_replied(
        room,
        config,
        (world.http)(verify_in_room_request(room, config, token)),
    )->Next_1;
    assert(trace.actions =~= Seq::empty().push(query).push(decode).push(join));
    lemma_count_requests_push(Seq::empty(), query, joins);
    lemma_count_requests_push(Seq::empty().push(query), decode, joins);
    lemma_count_requests_push(Seq::empty().push(query).push(decode), join, joins);
}

/// Where the full identity of the account is absent from the joined members
/// that the server reports, the guarantor makes exactly one join call, and
/// succeeds exactly when that call is answered with a success status.
pub proof fn law_absent_member_joins_once(
    room: Seq<char>,
    config: ConfigView,
    world: World,
    token: Seq<char>,
)
    requires
        config.token == Some(token),
        joined_members(room, config, world, token) matches Some(members) && !members.contains(
            config.full_username,
        ),
    ensures
        count_requests(
            ensure_member_run(room, config, world).actions,
            |request: RequestView| is_join_call(room, config, request),
        ) == 1,
        ensure_member_run(room, config, world).outcome is Some,
        ensure_member_run(room, config, world).outcome->Some_0 is Ok <==> (
        (world.http)(join_room_request(room, config, token)) matches ReplyView::Response {
            status,
            ..
        } && success_status(status)),
{
    law_query_reads_joined_members(
        room,
        config,
        world,
        token,
        joined_members(room, config, world, token)->Some_0,
    );
    law_non_member_joins_once(room, config, world, token);
}

/// The guarantor keeps to its own business: it writes no credentials and
/// delivers no message.
pub proof fn law_guarantor_keeps_to_its_business(
    room: Seq<char>,
    config: ConfigView,
    world: World,
)
    ensures
        count_actions(
            ensure_member_run(room, config, world).actions,
            |action: ActionView| is_save(action),
        ) == 0,
        count_requests(
            ensure_member_run(room, config, world).actions,
            |request: RequestView| is_message_call(request),
        ) == 0,
{
    let resume = |state: EnsureState, event: EventView|
        ensure_member_resume(state, room, config, event);
    lemma_run_never(
        resume,
        ensure_member_start(room, config),
        world,
        3,
        |action: ActionView| is_save(action),
    );
    lemma_run_never(
        resume,
        ensure_member_start(room, config),
        world,
        3,
        |action: ActionView| is_request_of(action, |request: RequestView| is_message_call(request)),
    );
}

} // verus!
