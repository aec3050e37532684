//! Whole runs of a callback, and what holds of every one of them.

use vstd::prelude::*;
use crate::model::{AccessToken, Config, PipelineError, Stage, StoreError, UserProfile};
use crate::notifier::spec_payload;
use crate::orchestrator::{
    code_present, counts_as_stored, spec_failure, spec_redirect, spec_refusal, spec_step,
    ActionView, Event, State,
};
use crate::pipeline::{CallEvent, PipelineState, RequestView};
use crate::status::{rejection, ApiError};
use crate::urls::{spec_profile_url, spec_token_url};

verus! {

/// The actions that a callback takes, in order, when it is in `state` and
/// the events `events[from..]` are reported one after the other, each with
/// the time at which it is reported. The run ends with the events, or at the
/// first event that the state does not wait for.
pub open spec fn spec_run(config: Config, state: State, events: Seq<(Event, String)>, from: int) -> Seq<
    ActionView,
>
    decreases events.len() - from,
{
    if 0 <= from < events.len() {
        match spec_step(config, state, events[from].0, events[from].1) {
            Some((next, action)) => seq![action] + spec_run(config, next, events, from + 1),
            None => Seq::empty(),
        }
    } else {
        Seq::empty()
    }
}

/// How many actions a callback has behind it when it is in `state` and has
/// not been cut short.
pub open spec fn progress_of(state: State) -> int {
    match state {
        State::Start => 0,
        State::PipelineRunning(PipelineState::Exchanging) => 1,
        State::PipelineRunning(PipelineState::ReadingToken) => 2,
        State::PipelineRunning(PipelineState::Fetching) => 3,
        State::PipelineRunning(PipelineState::ReadingProfile) => 4,
        State::Persisting { .. } => 5,
        State::NotifyAttempted => 6,
        State::Finished => 7,
    }
}

/// The place of an action in a callback that goes all the way: the token
/// request comes first and the announcement sixth. The response comes after
/// whatever was done, so it can take any place up to the seventh.
pub open spec fn place_of(action: ActionView) -> int {
    match action {
        ActionView::Call(RequestView::PostToken { .. }) => 0,
        ActionView::Call(RequestView::ReadToken) => 1,
        ActionView::Call(RequestView::GetProfile { .. }) => 2,
        ActionView::Call(RequestView::ReadProfile) => 3,
        ActionView::Persist { .. } => 4,
        ActionView::Notify { .. } => 5,
        ActionView::Respond { .. } => 6,
    }
}

/// Once the browser has its response nothing more is done, whatever is
/// reported afterwards.
pub proof fn finished_is_final(config: Config, events: Seq<(Event, String)>, from: int)
    ensures
        spec_run(config, State::Finished, events, from) == Seq::<ActionView>::empty(),
{
}

/// A step either answers the browser and ends the callback, or takes the
/// one action whose place is the state's progress and moves one state on.
pub proof fn step_keeps_the_order(config: Config, state: State, event: Event, now: String)
    requires
        spec_step(config, state, event, now) is Some,
    ensures
        ({
            let (next, action) = spec_step(config, state, event, now)->Some_0;
            if action is Respond {
                next is Finished
            } else {
                place_of(action) == progress_of(state) && progress_of(next) == progress_of(state)
                    + 1
            }
        }),
{
}

/// In every run, from any state, each action stands at its place: the
/// action at index `i` is the response, which is then the last, or the
/// action whose place is the state's progress plus `i`.
pub proof fn run_keeps_the_order(
    config: Config,
    state: State,
    events: Seq<(Event, String)>,
    from: int,
)
    ensures
        ({
            let run = spec_run(config, state, events, from);
            &&& run.len() + progress_of(state) <= 7
            &&& forall|i: int|
                0 <= i < run.len() ==> if run[i] is Respond {
                    i == run.len() - 1
                } else {
                    place_of(#[trigger] run[i]) == progress_of(state) + i
                }
        }),
    decreases events.len() - from,
{
    let run = spec_run(config, state, events, from);
    if 0 <= from < events.len() {
        match spec_step(config, state, events[from].0, events[from].1) {
            Some((next, action)) => {
                let rest = spec_run(config, next, events, from + 1);
                step_keeps_the_order(config, state, events[from].0, events[from].1);
                run_keeps_the_order(config, next, events, from + 1);
                if action is Respond {
                    finished_is_final(config, events, from + 1);
                }
                assert(run =~= seq![action] + rest);
                assert forall|i: int| 0 <= i < run.len() implies if run[i] is Respond {
                    i == run.len() - 1
                } else {
                    place_of(#[trigger] run[i]) == progress_of(state) + i
                } by {
                    if i > 0 {
                        assert(run[i] == rest[i - 1]);
                    }
                }
            },
            None => {},
        }
    }
}

/// The order of the side effects in a whole callback: the action at index
/// `i` is the one whose place is `i`, or it is the response and the last.
/// So the token is asked for before the profile, the profile is there
/// before anything is stored, nobody is told before the profile is stored,
/// and each of these happens at most once.
pub proof fn callback_keeps_the_order(config: Config, events: Seq<(Event, String)>)
    ensures
        ({
            let run = spec_run(config, State::Start, events, 0);
            &&& run.len() <= 7
            &&& forall|i: int|
                0 <= i < run.len() ==> if run[i] is Respond {
                    i == run.len() - 1
                } else {
                    place_of(#[trigger] run[i]) == i
                }
        }),
{
    run_keeps_the_order(config, State::Start, events, 0);
}

/// In a whole callback the store is written at most once, and only after
/// the four calls to the provider; the announcement goes out at most once,
/// and only after the store was written.
pub proof fn announcement_follows_the_store(config: Config, events: Seq<(Event, String)>)
    ensures
        ({
            let run = spec_run(config, State::Start, events, 0);
            forall|i: int|
                0 <= i < run.len() ==> {
                    &&& #[trigger] run[i] is Persist ==> i == 4 && run[3] is Call
                    &&& run[i] is Notify ==> i == 5 && run[4] is Persist
                }
        }),
{
    callback_keeps_the_order(config, events);
}

/// A request without a code, or with an empty one, is answered with a 400
/// and with nothing else: no call goes out to the provider.
pub proof fn missing_code_is_refused(
    config: Config,
    events: Seq<(Event, String)>,
    code: Option<String>,
)
    requires
        events.len() > 0,
        events[0].0 == (Event::Request { code }),
        !code_present(code),
    ensures
        spec_run(config, State::Start, events, 0) == seq![spec_refusal()],
{
    finished_is_final(config, events, 1);
    assert(spec_run(config, State::Start, events, 0) =~= seq![spec_refusal()]);
}

/// A token response that is accepted by its status and whose body does not
/// decode ends the callback with a decode error of the exchange, never with
/// a rejection: the run is the token request, the reading of the body and
/// a 500.
pub proof fn undecodable_token_is_a_decode_error(
    config: Config,
    events: Seq<(Event, String)>,
    code: String,
    status: u16,
)
    requires
        events.len() >= 3,
        code@.len() > 0,
        events[0].0 == (Event::Request { code: Some(code) }),
        events[1].0 == Event::Call(CallEvent::Status(status)),
        rejection(status) is None,
        events[2].0 == Event::Call(CallEvent::Undecodable),
    ensures
        spec_run(config, State::Start, events, 0) == (seq![
            ActionView::Call(RequestView::PostToken { url: spec_token_url(config, code@) }),
            ActionView::Call(RequestView::ReadToken),
            spec_failure(PipelineError::Decode { stage: Stage::Exchange }),
        ]),
{
    reveal_with_fuel(spec_run, 4);
    finished_is_final(config, events, 3);
    assert(spec_run(config, State::Start, events, 0) =~= seq![
        ActionView::Call(RequestView::PostToken { url: spec_token_url(config, code@) }),
        ActionView::Call(RequestView::ReadToken),
        spec_failure(PipelineError::Decode { stage: Stage::Exchange }),
    ]);
}

/// When the exchange gives a token and the profile request is answered with
/// a 5xx status, the callback ends with a 500 and the server's rejection of
/// the fetch; the four actions of the run are all there is, so nothing is
/// stored and nobody is told.
pub proof fn rejected_fetch_stores_nothing(
    config: Config,
    events: Seq<(Event, String)>,
    code: String,
    accepted: u16,
    token: AccessToken,
    refused: u16,
)
    requires
        events.len() >= 4,
        code@.len() > 0,
        events[0].0 == (Event::Request { code: Some(code) }),
        events[1].0 == Event::Call(CallEvent::Status(accepted)),
        rejection(accepted) is None,
        events[2].0 == Event::Call(CallEvent::Token(token)),
        events[3].0 == Event::Call(CallEvent::Status(refused)),
        500 <= refused < 600,
    ensures
        spec_run(config, State::Start, events, 0) == (seq![
            ActionView::Call(RequestView::PostToken { url: spec_token_url(config, code@) }),
            ActionView::Call(RequestView::ReadToken),
            ActionView::Call(
                RequestView::GetProfile { url: spec_profile_url(config, token.access_token@) },
            ),
            spec_failure(
                PipelineError::RemoteRejected { stage: Stage::Fetch, kind: ApiError::ServerError },
            ),
        ]),
{
    reveal_with_fuel(spec_run, 5);
    finished_is_final(config, events, 4);
    assert(spec_run(config, State::Start, events, 0) =~= seq![
        ActionView::Call(RequestView::PostToken { url: spec_token_url(config, code@) }),
        ActionView::Call(RequestView::ReadToken),
        ActionView::Call(
            RequestView::GetProfile { url: spec_profile_url(config, token.access_token@) },
        ),
        spec_failure(
            PipelineError::RemoteRejected { stage: Stage::Fetch, kind: ApiError::ServerError },
        ),
    ]);
}

/// Every failure of the pipeline is answered with the same 500, and the
/// callback is over: the cause goes to the log and the browser learns
/// nothing of it.
pub proof fn pipeline_failure_is_uniform(config: Config, state: State, event: Event, now: String)
    requires
        state is PipelineRunning,
        spec_step(config, state, event, now) is Some,
        spec_step(config, state, event, now)->Some_0.0 is Finished,
    ensures
        exists|error: PipelineError|
            spec_step(config, state, event, now)->Some_0.1 == #[trigger] spec_failure(error),
{
    let action = spec_step(config, state, event, now)->Some_0.1;
    assert(action == spec_failure(action->error->Some_0));
}

/// Once the profile is stored, the announcement goes out as the next action
/// and only then: the run has at most one more action, which is the redirect
/// to the success page, whatever came of the announcement.
pub proof fn stored_profile_is_announced_once(
    config: Config,
    profile: UserProfile,
    events: Seq<(Event, String)>,
    from: int,
)
    requires
        0 <= from < events.len(),
        events[from].0 is Stored || (events[from].0 is StoreFailed && counts_as_stored(
            config.on_conflict,
            events[from].0->StoreFailed_0,
        )),
    ensures
        ({
            let run = spec_run(config, State::Persisting { profile }, events, from);
            &&& 1 <= run.len() <= 2
            &&& run[0] == (ActionView::Notify {
                url: config.webhook_url@,
                payload: spec_payload(profile),
            })
            &&& run.len() == 2 ==> exists|error: Option<PipelineError>|
                run[1] == #[trigger] spec_redirect(config, true, error)
        }),
{
    reveal_with_fuel(spec_run, 3);
    finished_is_final(config, events, from + 2);
    let run = spec_run(config, State::Persisting { profile }, events, from);
    if run.len() == 2 {
        assert(run[1] == spec_redirect(config, true, run[1]->error));
    }
}

/// When the insert fails and the failure does not count as stored, the
/// browser is sent to the failure page and that is the whole run: nobody is
/// told. A failure other than a conflict never counts as stored.
pub proof fn failed_store_is_not_announced(
    config: Config,
    profile: UserProfile,
    events: Seq<(Event, String)>,
    from: int,
    error: StoreError,
)
    requires
        0 <= from < events.len(),
        events[from].0 == Event::StoreFailed(error),
        !counts_as_stored(config.on_conflict, error),
    ensures
        !counts_as_stored(config.on_conflict, StoreError::Other),
        spec_run(config, State::Persisting { profile }, events, from) == seq![
            spec_redirect(config, false, None),
        ],
{
    finished_is_final(config, events, from + 1);
    assert(spec_run(config, State::Persisting { profile }, events, from) =~= seq![
        spec_redirect(config, false, None),
    ]);
}

} // verus!
