//! The callback from the inbound request to the response.
//!
//! One callback is a short run of a state machine. The embedding program
//! reports an event, `step` answers with the next state and the one action
//! to perform, and so on until the action is a response to the browser.
//! The order of the side effects is fixed by the states: nothing is stored
//! before the profile is there, nobody is told before the profile is
//! stored, and what comes of telling changes nothing but the log.

use vstd::prelude::*;
use crate::clock::timestamp;
use crate::model::{Config, ConflictPolicy, PipelineError, StoreError, UserProfile};
use crate::notifier::{
    announce_outcome, payload_for, spec_announce_outcome, spec_payload, NotificationPayload,
    PayloadView,
};
use crate::pipeline::{
    advance, begin, spec_advance, spec_begin, CallEvent, PipelineState, Progress, ProgressView,
    Request, RequestView,
};
use crate::store::{person_row, spec_person_row, PersonRow};
use crate::urls::{authorize_url, spec_authorize_url};

verus! {

/// Where a callback stands between two events.
#[derive(Debug, PartialEq, Eq)]
pub enum State {
    /// Nothing has happened yet; the inbound request is awaited.
    Start,
    /// The code was there and the pipeline is under way.
    PipelineRunning(PipelineState),
    /// The profile is there and the insert is out.
    Persisting { profile: UserProfile },
    /// The profile is stored and the announcement is out.
    NotifyAttempted,
    /// The browser has its response.
    Finished,
}

/// What the embedding program reports.
#[derive(Debug, PartialEq, Eq)]
pub enum Event {
    /// The inbound request, with its `code` parameter if it has one.
    Request { code: Option<String> },
    /// What came of the last outbound call.
    Call(CallEvent),
    /// The insert went through and touched this many rows.
    Stored { rows: u64 },
    /// The insert failed.
    StoreFailed(StoreError),
}

/// What the browser is sent.
#[derive(Clone, Debug, PartialEq, Eq)]
pub enum Reply {
    /// 400: the request had no code.
    BadRequest,
    /// 500: the profile could not be had from the provider.
    ServerError,
    /// 302 to `url`.
    Redirect { url: String },
}

/// What the embedding program is asked to do.
#[derive(Debug, PartialEq, Eq)]
pub enum Action {
    /// Make an outbound call to the provider and report with `Event::Call`.
    Call(Request),
    /// Insert the row and report with `Event::Stored` or
    /// `Event::StoreFailed`.
    Persist { row: PersonRow },
    /// Post the payload to the webhook at `url` and report with
    /// `Event::Call`: the status, or that there was none.
    Notify { url: String, payload: NotificationPayload },
    /// Answer the browser. `error` is for the log only: the failure that
    /// led to a 500, or the failure of the announcement.
    Respond { reply: Reply, error: Option<PipelineError> },
}

/// An action with its built texts as sequences.
pub ghost enum ActionView {
    Call(RequestView),
    Persist { row: PersonRow },
    Notify { url: Seq<char>, payload: PayloadView },
    Respond { reply: Reply, error: Option<PipelineError> },
}

impl View for Action {
    type V = ActionView;

    open spec fn view(&self) -> ActionView {
        match *self {
            Action::Call(request) => ActionView::Call(request@),
            Action::Persist { row } => ActionView::Persist { row },
            Action::Notify { url, payload } => ActionView::Notify { url: url@, payload: payload@ },
            Action::Respond { reply, error } => ActionView::Respond { reply, error },
        }
    }
}

impl Reply {
    /// The HTTP status that the reply is sent with.
    pub open spec fn spec_status(self) -> u16 {
        match self {
            Reply::BadRequest => 400,
            Reply::ServerError => 500,
            Reply::Redirect { .. } => 302,
        }
    }

    /// The HTTP status that the reply is sent with.
    pub fn status(&self) -> (code: u16)
        ensures
            code == self.spec_status(),
    {
        match self {
            Reply::BadRequest => 400,
            Reply::ServerError => 500,
            Reply::Redirect { .. } => 302,
        }
    }
}

/// Whether a `code` parameter starts the pipeline: it is there and not empty.
pub open spec fn code_present(code: Option<String>) -> bool {
    code matches Some(text) && text@.len() > 0
}

/// Whether a failed insert is taken for a successful one.
pub open spec fn counts_as_stored(policy: ConflictPolicy, error: StoreError) -> bool {
    policy == ConflictPolicy::TreatAsStored && error == StoreError::Conflict
}

/// The page that the browser is sent to after an insert: the success page
/// if the row is stored, the failure page if it is not.
pub open spec fn spec_landing(config: Config, stored: bool) -> Reply {
    Reply::Redirect { url: if stored { config.success_url } else { config.failure_url } }
}

/// The answer to a request without a code.
pub open spec fn spec_refusal() -> ActionView {
    ActionView::Respond { reply: Reply::BadRequest, error: None }
}

/// The answer when the pipeline has failed with `error`.
pub open spec fn spec_failure(error: PipelineError) -> ActionView {
    ActionView::Respond { reply: Reply::ServerError, error: Some(error) }
}

/// The redirect after an insert, with the failure of the announcement if it
/// was made and failed.
pub open spec fn spec_redirect(config: Config, stored: bool, error: Option<PipelineError>) -> (
    ActionView
) {
    ActionView::Respond { reply: spec_landing(config, stored), error }
}

/// The step taken once the profile is stored: announce it.
pub open spec fn spec_announce(config: Config, profile: UserProfile) -> (State, ActionView) {
    (
        State::NotifyAttempted,
        ActionView::Notify { url: config.webhook_url@, payload: spec_payload(profile) },
    )
}

/// The last step after the announcement: the success page, whatever `sent`
/// says; a failure goes along for the log.
pub open spec fn spec_conclude(config: Config, sent: Result<u16, String>) -> (State, ActionView) {
    (
        State::Finished,
        spec_redirect(
            config,
            true,
            match spec_announce_outcome(sent) {
                Ok(_) => None,
                Err(error) => Some(error),
            },
        ),
    )
}

/// The step that follows from what the pipeline said.
pub open spec fn spec_follow(config: Config, progress: ProgressView, now: String) -> (
    State,
    ActionView,
) {
    match progress {
        ProgressView::Continue { state, request } => (
            State::PipelineRunning(state),
            ActionView::Call(request),
        ),
        ProgressView::Finished(Err(error)) => (State::Finished, spec_failure(error)),
        ProgressView::Finished(Ok(profile)) => (
            State::Persisting { profile },
            ActionView::Persist { row: spec_person_row(profile, config.cycle, now) },
        ),
    }
}

/// The transitions of a callback. `None` where the event is not one that the
/// state waits for. `now` is the time of the sign-up, used for the row.
///
/// - `Start`: without a code the request is refused with a 400 and nothing
///   else happens; with one the pipeline begins.
/// - `PipelineRunning`: the pipeline moves on. Its failure ends the callback
///   with a 500, the same for every cause; its profile is handed to the store.
/// - `Persisting`: once stored, the profile is announced. A failed insert
///   sends the browser to the failure page without an announcement, unless
///   it is a conflict and the policy takes a conflict for stored.
/// - `NotifyAttempted`: the browser is sent to the success page.
/// - `Finished`: nothing.
pub open spec fn spec_step(config: Config, state: State, event: Event, now: String) -> Option<
    (State, ActionView),
> {
    match (state, event) {
        (State::Start, Event::Request { code }) => if code_present(code) {
            let first = spec_begin(config, code->Some_0@);
            Some((State::PipelineRunning(first.0), ActionView::Call(first.1)))
        } else {
            Some((State::Finished, spec_refusal()))
        },
        (State::PipelineRunning(inner), Event::Call(call)) => match spec_advance(
            config,
            inner,
            call,
        ) {
            Some(progress) => Some(spec_follow(config, progress, now)),
            None => None,
        },
        (State::Persisting { profile }, Event::Stored { rows }) => Some(
            spec_announce(config, profile),
        ),
        (State::Persisting { profile }, Event::StoreFailed(error)) => if counts_as_stored(
            config.on_conflict,
            error,
        ) {
            Some(spec_announce(config, profile))
        } else {
            Some((State::Finished, spec_redirect(config, false, None)))
        },
        (State::NotifyAttempted, Event::Call(CallEvent::Status(status))) => Some(
            spec_conclude(config, Ok(status)),
        ),
        (State::NotifyAttempted, Event::Call(CallEvent::TransportFailed { cause })) => Some(
            spec_conclude(config, Err(cause)),
        ),
        _ => None,
    }
}

/// The events that a state waits for.
pub open spec fn awaits(state: State, event: Event) -> bool {
    match state {
        State::Start => event is Request,
        State::PipelineRunning(inner) => event matches Event::Call(call)
            && crate::pipeline::awaits(inner, call),
        State::Persisting { .. } => event is Stored || event is StoreFailed,
        State::NotifyAttempted => event matches Event::Call(call) && (call is Status
            || call is TransportFailed),
        State::Finished => false,
    }
}

/// A step is owed on exactly the events that the state waits for, whatever
/// the configuration and the time.
pub proof fn step_is_owed_when_awaited(config: Config, state: State, event: Event, now: String)
    ensures
        spec_step(config, state, event, now) is Some <==> awaits(state, event),
{
}

/// Whether `next` is the step that `spec_step` gives.
pub open spec fn is_step(
    config: Config,
    state: State,
    event: Event,
    now: String,
    next: Option<(State, Action)>,
) -> bool {
    match spec_step(config, state, event, now) {
        Some((state, action)) => next matches Some(taken) && taken.0 == state && taken.1@
            == action,
        None => next is None,
    }
}

/// The redirect that follows an insert.
pub fn landing(config: &Config, stored: bool) -> (reply: Reply)
    ensures
        reply == spec_landing(*config, stored),
{
    if stored {
        Reply::Redirect { url: config.success_url.clone() }
    } else {
        Reply::Redirect { url: config.failure_url.clone() }
    }
}

/// The reply that starts a sign-up: a redirect to the page on which the
/// provider asks the user to grant access.
pub fn start(config: &Config) -> (reply: Reply)
    ensures
        reply is Redirect,
        reply->url@ == spec_authorize_url(*config),
{
    Reply::Redirect { url: authorize_url(config) }
}

/// The step that announces a stored profile.
fn announce(config: &Config, profile: &UserProfile) -> (next: (State, Action))
    ensures
        next.0 == spec_announce(*config, *profile).0,
        next.1@ == spec_announce(*config, *profile).1,
{
    (
        State::NotifyAttempted,
        Action::Notify { url: config.webhook_url.clone(), payload: payload_for(profile) },
    )
}

/// The step that ends a callback after the announcement.
fn conclude(config: &Config, sent: Result<u16, String>) -> (next: (State, Action))
    ensures
        next.0 == spec_conclude(*config, sent).0,
        next.1@ == spec_conclude(*config, sent).1,
{
    let error = match announce_outcome(sent) {
        Ok(()) => None,
        Err(error) => Some(error),
    };
    (
        State::Finished,
        Action::Respond { reply: landing(config, true), error },
    )
}

/// The step that follows from the pipeline's progress.
fn follow(config: &Config, progress: Progress, now: String) -> (next: (State, Action))
    ensures
        next.0 == spec_follow(*config, progress@, now).0,
        next.1@ == spec_follow(*config, progress@, now).1,
{
    match progress {
        Progress::Continue { state, request } => (
            State::PipelineRunning(state),
            Action::Call(request),
        ),
        Progress::Finished(Err(error)) => (
            State::Finished,
            Action::Respond { reply: Reply::ServerError, error: Some(error) },
        ),
        Progress::Finished(Ok(profile)) => {
            let row = person_row(&profile, config.cycle, now);
            (State::Persisting { profile }, Action::Persist { row })
        },
    }
}

/// Takes the callback one event further, with `now` as the time of the
/// sign-up. `None` where the state does not wait for the event.
pub fn step(config: &Config, state: State, event: Event, now: String) -> (next: Option<
    (State, Action),
>)
    ensures
        next is Some <==> awaits(state, event),
        is_step(*config, state, event, now, next),
{
    match state {
        State::Start => match event {
            Event::Request { code: Some(code) } => {
                if code.as_str().is_empty() {
                    Some((State::Finished, Action::Respond { reply: Reply::BadRequest, error: None }))
                } else {
                    let (inner, request) = begin(config, code.as_str());
                    Some((State::PipelineRunning(inner), Action::Call(request)))
                }
            },
            Event::Request { code: None } => Some(
                (State::Finished, Action::Respond { reply: Reply::BadRequest, error: None }),
            ),
            _ => None,
        },
        State::PipelineRunning(inner) => match event {
            Event::Call(call) => match advance(config, inner, call) {
                Some(progress) => Some(follow(config, progress, now)),
                None => None,
            },
            _ => None,
        },
        State::Persisting { profile } => match event {
            Event::Stored { rows: _ } => Some(announce(config, &profile)),
            Event::StoreFailed(StoreError::Conflict) => match config.on_conflict {
                ConflictPolicy::TreatAsStored => Some(announce(config, &profile)),
                ConflictPolicy::Fail => Some(
                    (
                        State::Finished,
                        Action::Respond { reply: landing(config, false), error: None },
                    ),
                ),
            },
            Event::StoreFailed(StoreError::Other) => Some(
                (
                    State::Finished,
                    Action::Respond { reply: landing(config, false), error: None },
                ),
            ),
            _ => None,
        },
        State::NotifyAttempted => match event {
            Event::Call(CallEvent::Status(status)) => Some(conclude(config, Ok(status))),
            Event::Call(CallEvent::TransportFailed { cause }) => Some(conclude(config, Err(cause))),
            _ => None,
        },
        State::Finished => None,
    }
}

/// Takes the callback one event further, at the present time: `step` with
/// the clock's reading for `now`.
pub fn step_now(config: &Config, state: State, event: Event) -> (next: Option<(State, Action)>)
    ensures
        next is Some <==> awaits(state, event),
        exists|now: String| is_step(*config, state, event, now, next),
{
    let now = timestamp();
    let next = step(config, state, event, now);
    proof {
        assert(is_step(*config, state, event, now, next));
    }
    next
}

} // verus!
