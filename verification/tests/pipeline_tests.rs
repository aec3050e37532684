use oauth_callback::model::{
    AccessToken, Config, ConflictPolicy, PipelineError, School, Stage, UserProfile,
};
use oauth_callback::pipeline::{
    advance, begin, stage, CallEvent, PipelineState, Progress, Request,
};
use oauth_callback::status::ApiError;

fn pipeline_config() -> Config {
    Config {
        provider: "https://id.example".to_string(),
        client_id: "app-1".to_string(),
        client_secret: "s3cr3t".to_string(),
        redirect_uri: "https://site.example/callback".to_string(),
        success_url: "https://site.example/welcome".to_string(),
        failure_url: "https://site.example/sorry".to_string(),
        webhook_url: "https://chat.example/hook".to_string(),
        cycle: 2016,
        on_conflict: ConflictPolicy::Fail,
    }
}

fn pipeline_profile() -> UserProfile {
    UserProfile {
        id: 42,
        email: "a@b.com".to_string(),
        created_at: String::new(),
        updated_at: String::new(),
        first_name: "Ann".to_string(),
        last_name: String::new(),
        major: "CS".to_string(),
        shirt_size: String::new(),
        dietary_restrictions: String::new(),
        special_needs: None,
        date_of_birth: String::new(),
        gender: String::new(),
        phone_number: String::new(),
        school: School { id: 1, name: "State U".to_string() },
    }
}

fn pipeline_token() -> AccessToken {
    AccessToken {
        access_token: "tok1".to_string(),
        token_type: "bearer".to_string(),
        scope: "default".to_string(),
        created_at: 1456000000,
    }
}

fn all_states() -> Vec<PipelineState> {
    vec![
        PipelineState::Exchanging,
        PipelineState::ReadingToken,
        PipelineState::Fetching,
        PipelineState::ReadingProfile,
    ]
}

#[test]
fn pipeline_begins_with_the_token_request() {
    let (state, request) = begin(&pipeline_config(), "abc");
    assert_eq!(state, PipelineState::Exchanging);
    assert_eq!(
        request,
        Request::PostToken {
            url: "https://id.example/oauth/token?client_id=app-1&client_secret=s3cr3t&code=abc&redirect_uri=https://site.example/callback&grant_type=authorization_code".to_string()
        }
    );
}

#[test]
fn accepted_token_response_asks_for_its_body() {
    let next = advance(&pipeline_config(), PipelineState::Exchanging, CallEvent::Status(200));
    assert_eq!(
        next,
        Some(Progress::Continue {
            state: PipelineState::ReadingToken,
            request: Request::ReadToken
        })
    );
}

#[test]
fn rejected_exchange_ends_before_the_body_is_read() {
    let config = pipeline_config();
    assert_eq!(
        advance(&config, PipelineState::Exchanging, CallEvent::Status(401)),
        Some(Progress::Finished(Err(PipelineError::RemoteRejected {
            stage: Stage::Exchange,
            kind: ApiError::ClientError
        })))
    );
    assert_eq!(
        advance(&config, PipelineState::Exchanging, CallEvent::Status(502)),
        Some(Progress::Finished(Err(PipelineError::RemoteRejected {
            stage: Stage::Exchange,
            kind: ApiError::ServerError
        })))
    );
}

#[test]
fn token_asks_for_the_profile() {
    let next = advance(
        &pipeline_config(),
        PipelineState::ReadingToken,
        CallEvent::Token(pipeline_token()),
    );
    assert_eq!(
        next,
        Some(Progress::Continue {
            state: PipelineState::Fetching,
            request: Request::GetProfile {
                url: "https://id.example/api/user?access_token=tok1".to_string()
            }
        })
    );
}

#[test]
fn undecodable_token_is_a_decode_error_of_the_exchange() {
    let next = advance(&pipeline_config(), PipelineState::ReadingToken, CallEvent::Undecodable);
    assert_eq!(
        next,
        Some(Progress::Finished(Err(PipelineError::Decode { stage: Stage::Exchange })))
    );
}

#[test]
fn accepted_profile_response_asks_for_its_body() {
    let next = advance(&pipeline_config(), PipelineState::Fetching, CallEvent::Status(204));
    assert_eq!(
        next,
        Some(Progress::Continue {
            state: PipelineState::ReadingProfile,
            request: Request::ReadProfile
        })
    );
}

#[test]
fn unavailable_profile_endpoint_is_a_server_rejection() {
    let next = advance(&pipeline_config(), PipelineState::Fetching, CallEvent::Status(503));
    assert_eq!(
        next,
        Some(Progress::Finished(Err(PipelineError::RemoteRejected {
            stage: Stage::Fetch,
            kind: ApiError::ServerError
        })))
    );
}

#[test]
fn forbidden_profile_is_a_client_rejection() {
    let next = advance(&pipeline_config(), PipelineState::Fetching, CallEvent::Status(403));
    assert_eq!(
        next,
        Some(Progress::Finished(Err(PipelineError::RemoteRejected {
            stage: Stage::Fetch,
            kind: ApiError::ClientError
        })))
    );
}

#[test]
fn profile_ends_the_pipeline_with_success() {
    let next = advance(
        &pipeline_config(),
        PipelineState::ReadingProfile,
        CallEvent::Profile(pipeline_profile()),
    );
    assert_eq!(next, Some(Progress::Finished(Ok(pipeline_profile()))));
}

#[test]
fn undecodable_profile_is_a_decode_error_of_the_fetch() {
    let next = advance(&pipeline_config(), PipelineState::ReadingProfile, CallEvent::Undecodable);
    assert_eq!(next, Some(Progress::Finished(Err(PipelineError::Decode { stage: Stage::Fetch }))));
}

#[test]
fn transport_failure_ends_the_pipeline_in_every_state() {
    let expected = vec![Stage::Exchange, Stage::Exchange, Stage::Fetch, Stage::Fetch];
    let states = all_states();
    let mut i: usize = 0;
    while i < states.len() {
        let next = advance(
            &pipeline_config(),
            states[i],
            CallEvent::TransportFailed { cause: "timed out".to_string() },
        );
        assert_eq!(
            next,
            Some(Progress::Finished(Err(PipelineError::Transport {
                stage: expected[i],
                cause: "timed out".to_string()
            })))
        );
        i += 1;
    }
}

#[test]
fn events_out_of_turn_are_not_accepted() {
    let config = pipeline_config();
    assert_eq!(advance(&config, PipelineState::Exchanging, CallEvent::Undecodable), None);
    assert_eq!(
        advance(&config, PipelineState::Exchanging, CallEvent::Token(pipeline_token())),
        None
    );
    assert_eq!(
        advance(&config, PipelineState::Exchanging, CallEvent::Profile(pipeline_profile())),
        None
    );
    assert_eq!(advance(&config, PipelineState::ReadingToken, CallEvent::Status(200)), None);
    assert_eq!(
        advance(&config, PipelineState::ReadingToken, CallEvent::Profile(pipeline_profile())),
        None
    );
    assert_eq!(advance(&config, PipelineState::Fetching, CallEvent::Undecodable), None);
    assert_eq!(
        advance(&config, PipelineState::Fetching, CallEvent::Token(pipeline_token())),
        None
    );
    assert_eq!(advance(&config, PipelineState::ReadingProfile, CallEvent::Status(200)), None);
    assert_eq!(
        advance(&config, PipelineState::ReadingProfile, CallEvent::Token(pipeline_token())),
        None
    );
}

#[test]
fn states_belong_to_their_call() {
    assert_eq!(stage(PipelineState::Exchanging), Stage::Exchange);
    assert_eq!(stage(PipelineState::ReadingToken), Stage::Exchange);
    assert_eq!(stage(PipelineState::Fetching), Stage::Fetch);
    assert_eq!(stage(PipelineState::ReadingProfile), Stage::Fetch);
}
