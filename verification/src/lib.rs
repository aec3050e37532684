//! The decision logic of an OAuth callback handler.
//!
//! A callback carries an authorization code. The code is exchanged for an
//! access token, the token for the user's profile, the profile is stored and
//! a chat channel is told about it. Every network and database call is made
//! by the embedding program; this crate decides, from the outcome of each
//! call, what happens next and what the browser finally sees.

pub mod status;
pub mod model;
pub mod urls;
pub mod notifier;
pub mod store;
mod clock;
pub mod pipeline;
pub mod orchestrator;
pub mod run;
