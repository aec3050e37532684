//! The provider's endpoints, as URLs with their query strings.

use vstd::prelude::*;
use vstd::string::*;
use crate::model::Config;

verus! {

/// The token endpoint for one authorization code: the provider's
/// `/oauth/token` with the application's credentials, the code and the grant
/// type as query parameters, in that order.
pub open spec fn spec_token_url(config: Config, code: Seq<char>) -> Seq<char> {
    config.provider@ + "/oauth/token?client_id="@ + config.client_id@ + "&client_secret="@
        + config.client_secret@ + "&code="@ + code + "&redirect_uri="@ + config.redirect_uri@
        + "&grant_type=authorization_code"@
}

/// The profile endpoint for one access token.
pub open spec fn spec_profile_url(config: Config, token: Seq<char>) -> Seq<char> {
    config.provider@ + "/api/user?access_token="@ + token
}

/// The page on which the user grants access, and from which the provider
/// sends the browser back with a code.
pub open spec fn spec_authorize_url(config: Config) -> Seq<char> {
    config.provider@ + "/oauth/authorize?client_id="@ + config.client_id@ + "&redirect_uri="@
        + config.redirect_uri@ + "&response_type=code"@
}

/// The URL to post to in order to exchange `code` for a token.
pub fn token_url(config: &Config, code: &str) -> (url: String)
    ensures
        url@ == spec_token_url(*config, code@),
{
    let url = config.provider.clone();
    let url = url.concat("/oauth/token?client_id=");
    let url = url.concat(config.client_id.as_str());
    let url = url.concat("&client_secret=");
    let url = url.concat(config.client_secret.as_str());
    let url = url.concat("&code=");
    let url = url.concat(code);
    let url = url.concat("&redirect_uri=");
    let url = url.concat(config.redirect_uri.as_str());
    url.concat("&grant_type=authorization_code")
}

/// The URL to get in order to read the profile that `token` stands for.
pub fn profile_url(config: &Config, token: &str) -> (url: String)
    ensures
        url@ == spec_profile_url(*config, token@),
{
    let url = config.provider.clone();
    let url = url.concat("/api/user?access_token=");
    url.concat(token)
}

/// The URL that a sign-up starts at.
pub fn authorize_url(config: &Config) -> (url: String)
    ensures
        url@ == spec_authorize_url(*config),
{
    let url = config.provider.clone();
    let url = url.concat("/oauth/authorize?client_id=");
    let url = url.concat(config.client_id.as_str());
    let url = url.concat("&redirect_uri=");
    let url = url.concat(config.redirect_uri.as_str());
    url.concat("&response_type=code")
}

} // verus!
