//! From an authorization code to a profile, in two outbound calls.
//!
//! The code is exchanged for a token, then the token for the profile. Each
//! call has the same three ways to fail and the first failure ends the
//! pipeline; nothing is tried twice. The calls themselves are made by the
//! embedding program: it is told what to do with a `Request` and reports
//! what happened with a `CallEvent`.

use vstd::prelude::*;
use crate::model::{AccessToken, Config, PipelineError, Stage, UserProfile};
use crate::status::{check_http_error, rejection};
use crate::urls::{profile_url, spec_profile_url, spec_token_url, token_url};

verus! {

/// Where the pipeline stands between two events.
#[derive(Clone, Copy, Debug, PartialEq, Eq, Structural)]
pub enum PipelineState {
    /// The token request is out; its status is awaited.
    Exchanging,
    /// The token response was accepted; its decoded body is awaited.
    ReadingToken,
    /// The profile request is out; its status is awaited.
    Fetching,
    /// The profile response was accepted; its decoded body is awaited.
    ReadingProfile,
}

/// What the embedding program is asked to do next.
#[derive(Clone, Debug, PartialEq, Eq)]
pub enum Request {
    /// Post to `url` and close the connection; report the status.
    PostToken { url: String },
    /// Read the whole body of the token response and decode it.
    ReadToken,
    /// Get `url` and close the connection; report the status.
    GetProfile { url: String },
    /// Read the whole body of the profile response, decode it and take the
    /// profile out of its envelope.
    ReadProfile,
}

/// A request with its URL as a text.
pub ghost enum RequestView {
    PostToken { url: Seq<char> },
    ReadToken,
    GetProfile { url: Seq<char> },
    ReadProfile,
}

impl View for Request {
    type V = RequestView;

    open spec fn view(&self) -> RequestView {
        match *self {
            Request::PostToken { url } => RequestView::PostToken { url: url@ },
            Request::ReadToken => RequestView::ReadToken,
            Request::GetProfile { url } => RequestView::GetProfile { url: url@ },
            Request::ReadProfile => RequestView::ReadProfile,
        }
    }
}

/// What came of the last request.
#[derive(Clone, Debug, PartialEq, Eq)]
pub enum CallEvent {
    /// A response arrived, with this status.
    Status(u16),
    /// No response arrived, or its body could not be read.
    TransportFailed { cause: String },
    /// The body was a token.
    Token(AccessToken),
    /// The body was an envelope with this profile in it.
    Profile(UserProfile),
    /// The body was neither.
    Undecodable,
}

/// The pipeline after an event: either it asks for the next thing, or it is
/// over, with the profile or with the error of the call that failed.
#[derive(Debug, PartialEq, Eq)]
pub enum Progress {
    Continue { state: PipelineState, request: Request },
    Finished(Result<UserProfile, PipelineError>),
}

/// Progress with the request's URL as a text.
pub ghost enum ProgressView {
    Continue { state: PipelineState, request: RequestView },
    Finished(Result<UserProfile, PipelineError>),
}

impl View for Progress {
    type V = ProgressView;

    open spec fn view(&self) -> ProgressView {
        match *self {
            Progress::Continue { state, request } => ProgressView::Continue {
                state,
                request: request@,
            },
            Progress::Finished(result) => ProgressView::Finished(result),
        }
    }
}

/// The call that a state belongs to.
pub open spec fn stage_of(state: PipelineState) -> Stage {
    match state {
        PipelineState::Exchanging | PipelineState::ReadingToken => Stage::Exchange,
        PipelineState::Fetching | PipelineState::ReadingProfile => Stage::Fetch,
    }
}

/// The state in which the body of an accepted response is awaited.
pub open spec fn reading_state(state: PipelineState) -> PipelineState {
    match stage_of(state) {
        Stage::Exchange => PipelineState::ReadingToken,
        _ => PipelineState::ReadingProfile,
    }
}

/// The request to read the body of an accepted response.
pub open spec fn reading_request(state: PipelineState) -> RequestView {
    match stage_of(state) {
        Stage::Exchange => RequestView::ReadToken,
        _ => RequestView::ReadProfile,
    }
}

/// The first request of the pipeline for `code`.
pub open spec fn spec_begin(config: Config, code: Seq<char>) -> (PipelineState, RequestView) {
    (PipelineState::Exchanging, RequestView::PostToken { url: spec_token_url(config, code) })
}

/// The pipeline's transitions. `None` where the event is not one that the
/// state waits for.
///
/// A transport failure ends the pipeline in any state. A status is judged
/// before any body is read: a 4xx or 5xx ends the pipeline, any other asks
/// for the body. A token asks for the profile; a profile ends the pipeline
/// with success; a body that is neither ends it with a decode error.
pub open spec fn spec_advance(config: Config, state: PipelineState, event: CallEvent) -> Option<
    ProgressView,
> {
    match event {
        CallEvent::TransportFailed { cause } => Some(
            ProgressView::Finished(
                Err(PipelineError::Transport { stage: stage_of(state), cause }),
            ),
        ),
        CallEvent::Status(status) => match state {
            PipelineState::Exchanging | PipelineState::Fetching => match rejection(status) {
                Some(kind) => Some(
                    ProgressView::Finished(
                        Err(PipelineError::RemoteRejected { stage: stage_of(state), kind }),
                    ),
                ),
                None => Some(
                    ProgressView::Continue {
                        state: reading_state(state),
                        request: reading_request(state),
                    },
                ),
            },
            _ => None,
        },
        CallEvent::Token(token) => match state {
            PipelineState::ReadingToken => Some(
                ProgressView::Continue {
                    state: PipelineState::Fetching,
                    request: RequestView::GetProfile {
                        url: spec_profile_url(config, token.access_token@),
                    },
                },
            ),
            _ => None,
        },
        CallEvent::Profile(profile) => match state {
            PipelineState::ReadingProfile => Some(ProgressView::Finished(Ok(profile))),
            _ => None,
        },
        CallEvent::Undecodable => match state {
            PipelineState::ReadingToken | PipelineState::ReadingProfile => Some(
                ProgressView::Finished(Err(PipelineError::Decode { stage: stage_of(state) })),
            ),
            _ => None,
        },
    }
}

/// The events that a state waits for: a status while a request is out, a
/// decoded body or the lack of one while a body is read, and a transport
/// failure at any time.
pub open spec fn awaits(state: PipelineState, event: CallEvent) -> bool {
    match event {
        CallEvent::TransportFailed { .. } => true,
        CallEvent::Status(_) => state == PipelineState::Exchanging || state
            == PipelineState::Fetching,
        CallEvent::Token(_) => state == PipelineState::ReadingToken,
        CallEvent::Profile(_) => state == PipelineState::ReadingProfile,
        CallEvent::Undecodable => state == PipelineState::ReadingToken || state
            == PipelineState::ReadingProfile,
    }
}

/// The call that `state` belongs to.
pub fn stage(state: PipelineState) -> (stage: Stage)
    ensures
        stage == stage_of(state),
{
    match state {
        PipelineState::Exchanging | PipelineState::ReadingToken => Stage::Exchange,
        PipelineState::Fetching | PipelineState::ReadingProfile => Stage::Fetch,
    }
}

/// Starts the pipeline for `code`: the token request.
pub fn begin(config: &Config, code: &str) -> (first: (PipelineState, Request))
    ensures
        first.0 == spec_begin(*config, code@).0,
        first.1@ == spec_begin(*config, code@).1,
{
    (PipelineState::Exchanging, Request::PostToken { url: token_url(config, code) })
}

/// Takes the pipeline one event further.
pub fn advance(config: &Config, state: PipelineState, event: CallEvent) -> (next: Option<Progress>)
    ensures
        next is Some <==> awaits(state, event),
        (match next {
            Some(progress) => spec_advance(*config, state, event) == Some(progress@),
            None => spec_advance(*config, state, event) is None,
        }),
{
    match event {
        CallEvent::TransportFailed { cause } => Some(
            Progress::Finished(Err(PipelineError::Transport { stage: stage(state), cause })),
        ),
        CallEvent::Status(status) => match state {
            PipelineState::Exchanging => match check_http_error(status) {
                Err(kind) => Some(
                    Progress::Finished(
                        Err(PipelineError::RemoteRejected { stage: Stage::Exchange, kind }),
                    ),
                ),
                Ok(()) => Some(
                    Progress::Continue {
                        state: PipelineState::ReadingToken,
                        request: Request::ReadToken,
                    },
                ),
            },
            PipelineState::Fetching => match check_http_error(status) {
                Err(kind) => Some(
                    Progress::Finished(
                        Err(PipelineError::RemoteRejected { stage: Stage::Fetch, kind }),
                    ),
                ),
                Ok(()) => Some(
                    Progress::Continue {
                        state: PipelineState::ReadingProfile,
                        request: Request::ReadProfile,
                    },
                ),
            },
            _ => None,
        },
        CallEvent::Token(token) => match state {
            PipelineState::ReadingToken => Some(
                Progress::Continue {
                    state: PipelineState::Fetching,
                    request: Request::GetProfile {
                        url: profile_url(config, token.access_token.as_str()),
                    },
                },
            ),
            _ => None,
        },
        CallEvent::Profile(profile) => match state {
            PipelineState::ReadingProfile => Some(Progress::Finished(Ok(profile))),
            _ => None,
        },
        CallEvent::Undecodable => match state {
            PipelineState::ReadingToken => Some(
                Progress::Finished(Err(PipelineError::Decode { stage: Stage::Exchange })),
            ),
            PipelineState::ReadingProfile => Some(
                Progress::Finished(Err(PipelineError::Decode { stage: Stage::Fetch })),
            ),
            _ => None,
        },
    }
}

/// The pipeline moves on exactly the events that its state waits for.
pub proof fn progress_is_owed_when_awaited(config: Config, state: PipelineState, event: CallEvent)
    ensures
        spec_advance(config, state, event) is Some <==> awaits(state, event),
{
}

/// The pipeline fails only with an error of the call that it was at, and it
/// hands out a profile only in answer to the profile that was reported.
pub proof fn errors_carry_their_stage(config: Config, state: PipelineState, event: CallEvent)
    ensures
        (match spec_advance(config, state, event) {
            Some(ProgressView::Finished(Err(error))) => error.spec_stage() == stage_of(state),
            Some(ProgressView::Finished(Ok(profile))) => event == CallEvent::Profile(profile),
            _ => true,
        }),
{
}

/// The body of an accepted response, as the embedding program finds it.
pub ghost enum Body<T> {
    /// Reading it failed.
    Unreadable { cause: String },
    /// It was read and has not the expected shape.
    Undecodable,
    /// It was read and decoded.
    Decoded(T),
}

/// One outbound call seen as a whole. The body of a response counts only
/// where the status lets the response through: otherwise it is never read.
pub ghost enum Outcome<T> {
    /// No response arrived.
    NoResponse { cause: String },
    /// A response arrived.
    Response { status: u16, body: Body<T> },
}

/// What one call gives: the decoded body of an accepted response, or the
/// first thing that stood in the way, tagged with the call.
pub open spec fn spec_call_result<T>(stage: Stage, outcome: Outcome<T>) -> Result<T, PipelineError> {
    match outcome {
        Outcome::NoResponse { cause } => Err(PipelineError::Transport { stage, cause }),
        Outcome::Response { status, body } => match rejection(status) {
            Some(kind) => Err(PipelineError::RemoteRejected { stage, kind }),
            None => match body {
                Body::Unreadable { cause } => Err(PipelineError::Transport { stage, cause }),
                Body::Undecodable => Err(PipelineError::Decode { stage }),
                Body::Decoded(value) => Ok(value),
            },
        },
    }
}

/// What the pipeline gives, as a composition: the exchange, and only if it
/// gave a token, the fetch. The first failure is the result.
pub open spec fn spec_complete(
    exchange: Outcome<AccessToken>,
    fetch: Outcome<UserProfile>,
) -> Result<UserProfile, PipelineError> {
    match spec_call_result(Stage::Exchange, exchange) {
        Ok(_) => spec_call_result(Stage::Fetch, fetch),
        Err(error) => Err(error),
    }
}

/// The events by which the token call is reported.
pub open spec fn token_reports(outcome: Outcome<AccessToken>) -> Seq<CallEvent> {
    match outcome {
        Outcome::NoResponse { cause } => seq![CallEvent::TransportFailed { cause }],
        Outcome::Response { status, body } => if rejection(status) is Some {
            seq![CallEvent::Status(status)]
        } else {
            seq![
                CallEvent::Status(status),
                match body {
                    Body::Unreadable { cause } => CallEvent::TransportFailed { cause },
                    Body::Undecodable => CallEvent::Undecodable,
                    Body::Decoded(token) => CallEvent::Token(token),
                },
            ]
        },
    }
}

/// The events by which the profile call is reported.
pub open spec fn profile_reports(outcome: Outcome<UserProfile>) -> Seq<CallEvent> {
    match outcome {
        Outcome::NoResponse { cause } => seq![CallEvent::TransportFailed { cause }],
        Outcome::Response { status, body } => if rejection(status) is Some {
            seq![CallEvent::Status(status)]
        } else {
            seq![
                CallEvent::Status(status),
                match body {
                    Body::Unreadable { cause } => CallEvent::TransportFailed { cause },
                    Body::Undecodable => CallEvent::Undecodable,
                    Body::Decoded(profile) => CallEvent::Profile(profile),
                },
            ]
        },
    }
}

/// What the pipeline finishes with when it is in `state` and the events
/// `events[from..]` are reported one after the other. `None` if the events
/// end before the pipeline does, or if one comes out of turn.
pub open spec fn spec_finish(config: Config, state: PipelineState, events: Seq<CallEvent>, from: int) -> Option<
    Result<UserProfile, PipelineError>,
>
    decreases events.len() - from,
{
    if 0 <= from < events.len() {
        match spec_advance(config, state, events[from]) {
            Some(ProgressView::Finished(result)) => Some(result),
            Some(ProgressView::Continue { state: next, .. }) => spec_finish(
                config,
                next,
                events,
                from + 1,
            ),
            None => None,
        }
    } else {
        None
    }
}

/// The pipeline is the exchange followed by the fetch and nothing else:
/// when the two calls are reported as they go, the fetch only after an
/// exchange that gave a token, the pipeline finishes, and with the result
/// of the composition. A failed exchange is the result whatever the fetch
/// would have given, and whatever is reported `later` changes nothing.
pub proof fn pipeline_is_exchange_then_fetch(
    config: Config,
    exchange: Outcome<AccessToken>,
    fetch: Outcome<UserProfile>,
    later: Seq<CallEvent>,
)
    ensures
        spec_call_result(Stage::Exchange, exchange) is Ok ==> spec_finish(
            config,
            PipelineState::Exchanging,
            token_reports(exchange) + profile_reports(fetch) + later,
            0,
        ) == Some(spec_complete(exchange, fetch)),
        spec_call_result(Stage::Exchange, exchange) is Err ==> spec_finish(
            config,
            PipelineState::Exchanging,
            token_reports(exchange) + later,
            0,
        ) == Some(spec_complete(exchange, fetch)),
{
    reveal_with_fuel(spec_finish, 5);
    let first = token_reports(exchange);
    if spec_call_result(Stage::Exchange, exchange) is Ok {
        let second = profile_reports(fetch);
        let events = first + second + later;
        assert(first.len() == 2);
        assert(events[0] == first[0]);
        assert(events[1] == first[1]);
        assert(events[2] == second[0]);
        if second.len() == 2 {
            assert(events[3] == second[1]);
        }
    } else {
        let events = first + later;
        assert(events[0] == first[0]);
        if first.len() == 2 {
            assert(events[1] == first[1]);
        }
    }
}

} // verus!
