//! The announcement of a new sign-up to a chat channel.
//!
//! Announcing is a side channel: whatever comes of it is reported, and
//! nothing that depends on the answer is decided here.

use vstd::prelude::*;
use vstd::string::*;
use crate::model::{PipelineError, Stage, UserProfile};
use crate::status::{check_http_error, rejection};

verus! {

/// The message posted to the webhook.
#[derive(Clone, Debug, PartialEq, Eq)]
pub struct NotificationPayload {
    pub channel: String,
    pub username: String,
    pub text: String,
    pub icon_emoji: String,
}

/// A payload as four texts.
pub ghost struct PayloadView {
    pub channel: Seq<char>,
    pub username: Seq<char>,
    pub text: Seq<char>,
    pub icon_emoji: Seq<char>,
}

impl View for NotificationPayload {
    type V = PayloadView;

    open spec fn view(&self) -> PayloadView {
        PayloadView {
            channel: self.channel@,
            username: self.username@,
            text: self.text@,
            icon_emoji: self.icon_emoji@,
        }
    }
}

/// The sentence that announces a profile: first name, major and school.
pub open spec fn spec_announcement(profile: UserProfile) -> Seq<char> {
    profile.first_name@ + ", a "@ + profile.major@ + " major from "@ + profile.school.name@
        + ", has signed up!"@
}

/// The payload that announces a profile.
pub open spec fn spec_payload(profile: UserProfile) -> PayloadView {
    PayloadView {
        channel: "#signups"@,
        username: "Signup bot"@,
        text: spec_announcement(profile),
        icon_emoji: ":hackcwru:"@,
    }
}

/// What came of an announcement, given what came of the post: `Ok` with the
/// status of the response, or `Err` with the reason there was none.
pub open spec fn spec_announce_outcome(sent: Result<u16, String>) -> Result<(), PipelineError> {
    match sent {
        Ok(status) => match rejection(status) {
            Some(kind) => Err(PipelineError::RemoteRejected { stage: Stage::Notify, kind }),
            None => Ok(()),
        },
        Err(cause) => Err(PipelineError::Transport { stage: Stage::Notify, cause }),
    }
}

/// Builds the payload that announces `profile`.
pub fn payload_for(profile: &UserProfile) -> (payload: NotificationPayload)
    ensures
        payload@ == spec_payload(*profile),
{
    let text = profile.first_name.clone();
    let text = text.concat(", a ");
    let text = text.concat(profile.major.as_str());
    let text = text.concat(" major from ");
    let text = text.concat(profile.school.name.as_str());
    let text = text.concat(", has signed up!");
    NotificationPayload {
        channel: String::from_str("#signups"),
        username: String::from_str("Signup bot"),
        text,
        icon_emoji: String::from_str(":hackcwru:"),
    }
}

/// Judges an announcement by what came of the post to the webhook.
pub fn announce_outcome(sent: Result<u16, String>) -> (res: Result<(), PipelineError>)
    ensures
        res == spec_announce_outcome(sent),
{
    match sent {
        Ok(status) => match check_http_error(status) {
            Ok(()) => Ok(()),
            Err(kind) => Err(PipelineError::RemoteRejected { stage: Stage::Notify, kind }),
        },
        Err(cause) => Err(PipelineError::Transport { stage: Stage::Notify, cause }),
    }
}

/// The announcement names the user, the major and the school: each of the
/// three stands in the text as it is, at a known place.
pub proof fn announcement_names_profile(profile: UserProfile)
    ensures
        ({
            let text = spec_announcement(profile);
            let first = profile.first_name@;
            let major = profile.major@;
            let school = profile.school.name@;
            let at_major: int = (first.len() + ", a "@.len()) as int;
            let at_school: int = at_major + major.len() + " major from "@.len();
            &&& text.subrange(0, first.len() as int) == first
            &&& text.subrange(at_major, at_major + major.len()) == major
            &&& text.subrange(at_school, at_school + school.len()) == school
        }),
{
    let text = spec_announcement(profile);
    let first = profile.first_name@;
    let major = profile.major@;
    let school = profile.school.name@;
    let at_major: int = (first.len() + ", a "@.len()) as int;
    let at_school: int = at_major + major.len() + " major from "@.len();
    assert(text.subrange(0, first.len() as int) =~= first);
    assert(text.subrange(at_major, at_major + major.len()) =~= major);
    assert(text.subrange(at_school, at_school + school.len()) =~= school);
}

} // verus!
