//! The values that pass through one callback.

use vstd::prelude::*;
use crate::status::ApiError;

verus! {

/// The school a user attends.
#[derive(Clone, Debug, PartialEq, Eq)]
pub struct School {
    pub id: i32,
    pub name: String,
}

/// A user's profile as the provider reports it. `id` is the provider's own
/// identity for the user and, together with the enrollment cycle, the key
/// under which the profile is stored.
#[derive(Clone, Debug, PartialEq, Eq)]
pub struct UserProfile {
    pub id: i32,
    pub email: String,
    pub created_at: String,
    pub updated_at: String,
    pub first_name: String,
    pub last_name: String,
    pub major: String,
    pub shirt_size: String,
    pub dietary_restrictions: String,
    pub special_needs: Option<String>,
    pub date_of_birth: String,
    pub gender: String,
    pub phone_number: String,
    pub school: School,
}

/// What the provider's token endpoint answers. Used once, to fetch one
/// profile, and never stored.
#[derive(Clone, Debug, PartialEq, Eq)]
pub struct AccessToken {
    pub access_token: String,
    pub token_type: String,
    pub scope: String,
    pub created_at: u64,
}

/// The outbound call during which something went wrong.
#[derive(Clone, Copy, Debug, PartialEq, Eq, Structural)]
pub enum Stage {
    /// Exchanging the authorization code for a token.
    Exchange,
    /// Fetching the profile with the token.
    Fetch,
    /// Posting the announcement to the webhook.
    Notify,
}

/// Why an outbound call failed.
#[derive(Clone, Debug, PartialEq, Eq)]
pub enum PipelineError {
    /// No usable response: the connection failed, or the body could not be
    /// read. `cause` is the transport's own description.
    Transport { stage: Stage, cause: String },
    /// The response was accepted but its body has not the expected shape.
    Decode { stage: Stage },
    /// The remote side answered with a 4xx or 5xx status.
    RemoteRejected { stage: Stage, kind: ApiError },
}

/// Why a profile was not stored.
#[derive(Clone, Copy, Debug, PartialEq, Eq, Structural)]
pub enum StoreError {
    /// A row with the same id and cycle is already there.
    Conflict,
    /// Anything else.
    Other,
}

/// What the browser is sent when a profile turns out to be stored already.
#[derive(Clone, Copy, Debug, PartialEq, Eq, Structural)]
pub enum ConflictPolicy {
    /// A duplicate is a failure like any other store error.
    Fail,
    /// A duplicate counts as stored: the user is announced and sent to the
    /// success page.
    TreatAsStored,
}

/// Everything the handler is configured with, read once at startup.
#[derive(Clone, Debug, PartialEq, Eq)]
pub struct Config {
    /// Scheme and host of the provider, without a trailing slash.
    pub provider: String,
    pub client_id: String,
    pub client_secret: String,
    pub redirect_uri: String,
    /// Where the browser goes once the profile is stored.
    pub success_url: String,
    /// Where the browser goes when the profile could not be stored.
    pub failure_url: String,
    /// The chat webhook that announcements are posted to.
    pub webhook_url: String,
    /// The enrollment cycle that new rows are filed under.
    pub cycle: i32,
    pub on_conflict: ConflictPolicy,
}

impl PipelineError {
    /// The outbound call that the error belongs to.
    pub open spec fn spec_stage(self) -> Stage {
        match self {
            PipelineError::Transport { stage, .. } => stage,
            PipelineError::Decode { stage } => stage,
            PipelineError::RemoteRejected { stage, .. } => stage,
        }
    }

    /// The outbound call that the error belongs to.
    pub fn stage(&self) -> (stage: Stage)
        ensures
            stage == self.spec_stage(),
    {
        match self {
            PipelineError::Transport { stage, .. } => *stage,
            PipelineError::Decode { stage } => *stage,
            PipelineError::RemoteRejected { stage, .. } => *stage,
        }
    }
}

} // verus!
