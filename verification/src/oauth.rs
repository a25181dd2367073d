//! The endpoints of the OAuth client that signs users in with Discord.
use vstd::prelude::*;

use crate::config::DiscordConfig;
use crate::errors::{AppError, ErrorSource, external};

verus! {

/// `oauth2::AuthUrl`, carried through as an opaque value.
#[verifier::external_type_specification]
#[verifier::external_body]
pub struct ExAuthUrl(oauth2::AuthUrl);

/// `oauth2::TokenUrl`, carried through as an opaque value.
#[verifier::external_type_specification]
#[verifier::external_body]
pub struct ExTokenUrl(oauth2::TokenUrl);

/// `oauth2::RedirectUrl`, carried through as an opaque value.
#[verifier::external_type_specification]
#[verifier::external_body]
pub struct ExRedirectUrl(oauth2::RedirectUrl);

/// `url::ParseError`, carried through as an opaque value.
#[verifier::external_type_specification]
#[verifier::external_body]
pub struct ExUrlParseError(url::ParseError);

/// Whether `oauth2::AuthUrl::new` accepts the text as a URL.
pub uninterp spec fn auth_url_accepts(url: Seq<char>) -> bool;

/// The `oauth2::AuthUrl` that `oauth2::AuthUrl::new` makes of an accepted text.
pub uninterp spec fn auth_url_of(url: Seq<char>) -> oauth2::AuthUrl;

/// Whether `oauth2::TokenUrl::new` accepts the text as a URL.
pub uninterp spec fn token_url_accepts(url: Seq<char>) -> bool;

/// The `oauth2::TokenUrl` that `oauth2::TokenUrl::new` makes of an accepted text.
pub uninterp spec fn token_url_of(url: Seq<char>) -> oauth2::TokenUrl;

/// Whether `oauth2::RedirectUrl::new` accepts the text as a URL.
pub uninterp spec fn redirect_url_accepts(url: Seq<char>) -> bool;

/// The `oauth2::RedirectUrl` that `oauth2::RedirectUrl::new` makes of an accepted text.
pub uninterp spec fn redirect_url_of(url: Seq<char>) -> oauth2::RedirectUrl;

/// `oauth2::AuthUrl::new`: succeeds exactly when the URL parser accepts the
/// text, and gives what it makes of that text. The parser accepts Discord's
/// authorization endpoint, an absolute `https` URL with a host and a path.
#[verifier::external_body]
fn auth_url_new(url: String) -> (r: Result<oauth2::AuthUrl, url::ParseError>)
    ensures
        r is Ok == auth_url_accepts(url@),
        url@ == DISCORD_AUTH_URL@ ==> r is Ok,
        r matches Ok(u) ==> u == auth_url_of(url@),
{
    oauth2::AuthUrl::new(url)
}

/// `oauth2::TokenUrl::new`: succeeds exactly when the URL parser accepts the
/// text, and gives what it makes of that text. The parser accepts Discord's
/// token endpoint, an absolute `https` URL with a host and a path.
#[verifier::external_body]
fn token_url_new(url: String) -> (r: Result<oauth2::TokenUrl, url::ParseError>)
    ensures
        r is Ok == token_url_accepts(url@),
        url@ == DISCORD_TOKEN_URL@ ==> r is Ok,
        r matches Ok(u) ==> u == token_url_of(url@),
{
    oauth2::TokenUrl::new(url)
}

/// `oauth2::RedirectUrl::new`: succeeds exactly when the URL parser accepts the
/// text, and gives what it makes of that text.
#[verifier::external_body]
fn redirect_url_new(url: String) -> (r: Result<oauth2::RedirectUrl, url::ParseError>)
    ensures
        r is Ok == redirect_url_accepts(url@),
        r matches Ok(u) ==> u == redirect_url_of(url@),
{
    oauth2::RedirectUrl::new(url)
}

/// `<url::ParseError as ToString>::to_string`: the error's message. Which text
/// it is, the contract does not say.
#[verifier::external_body]
fn url_error_message(e: url::ParseError) -> String {
    e.to_string()
}

/// `oauth2::PkceCodeChallenge`, carried through as an opaque value.
#[verifier::external_type_specification]
#[verifier::external_body]
pub struct ExPkceCodeChallenge(oauth2::PkceCodeChallenge);

/// The SHA-256 challenge that `oauth2::PkceCodeChallenge::from_code_verifier_sha256`
/// makes of a code verifier, given as its secret text.
pub uninterp spec fn pkce_s256_challenge(verifier: Seq<char>) -> oauth2::PkceCodeChallenge;

/// `oauth2::PkceCodeChallenge::new_random_sha256`: a random code verifier,
/// given as its secret text, with the SHA-256 challenge made of it. Which
/// verifier comes out is chance; the contract says only that the challenge is
/// the one made of the verifier.
#[verifier::external_body]
pub(crate) fn new_pkce_sha256() -> (r: (oauth2::PkceCodeChallenge, String))
    ensures
        r.0 == pkce_s256_challenge(r.1@),
{
    let (challenge, verifier) = oauth2::PkceCodeChallenge::new_random_sha256();
    (challenge, verifier.secret().to_owned())
}

/// `oauth2::CsrfToken::new_random`: a random CSRF state, given as its secret
/// text. It is chance, so the contract says nothing of it.
#[verifier::external_body]
pub(crate) fn new_csrf_state() -> String {
    oauth2::CsrfToken::new_random().secret().to_owned()
}

/// Discord's authorization endpoint.
pub const DISCORD_AUTH_URL: &'static str = "https://discord.com/oauth2/authorize";

/// Discord's token endpoint.
pub const DISCORD_TOKEN_URL: &'static str = "https://discord.com/api/oauth2/token";

/// What the OAuth client is made of: the application's credentials and the
/// three endpoints, each URL checked.
pub struct OAuthEndpoints {
    pub client_id: String,
    pub client_secret: String,
    pub auth_url: oauth2::AuthUrl,
    pub token_url: oauth2::TokenUrl,
    pub redirect_url: oauth2::RedirectUrl,
}

/// The endpoints of the OAuth client for the configured Discord application:
/// given exactly when the URL parser accepts the configured redirect URI, and
/// an error of the URL parser otherwise.
pub fn get_oauth_endpoints(config: &DiscordConfig) -> (r: Result<OAuthEndpoints, AppError>)
    ensures
        r is Ok == redirect_url_accepts(config.redirect_uri@),
        r matches Ok(e) ==> e.client_id@ == config.client_id@ && e.client_secret@
            == config.client_secret@ && e.auth_url == auth_url_of(DISCORD_AUTH_URL@)
            && e.token_url == token_url_of(DISCORD_TOKEN_URL@) && e.redirect_url
            == redirect_url_of(config.redirect_uri@),
        r matches Err(e) ==> e.spec_kind() == crate::errors::AppErrorKind::External(
            ErrorSource::Url,
        ),
{
    let client_id = config.client_id.clone();
    let client_secret = config.client_secret.clone();
    let auth_url = match auth_url_new(String::from_str(DISCORD_AUTH_URL)) {
        Ok(u) => u,
        Err(e) => {
            return Err(external(ErrorSource::Url, url_error_message(e)));
        },
    };
    let token_url = match token_url_new(String::from_str(DISCORD_TOKEN_URL)) {
        Ok(u) => u,
        Err(e) => {
            return Err(external(ErrorSource::Url, url_error_message(e)));
        },
    };
    let redirect_url = match redirect_url_new(config.redirect_uri.clone()) {
        Ok(u) => u,
        Err(e) => {
            return Err(external(ErrorSource::Url, url_error_message(e)));
        },
    };
    Ok(OAuthEndpoints { client_id, client_secret, auth_url, token_url, redirect_url })
}

} // verus!
