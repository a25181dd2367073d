//! Signing in with Discord and signing out: what each step keeps in, and takes
//! out of, the cookie session.
//!
//! Login keeps a CSRF state and a PKCE code verifier in the session. The
//! authorization callback is accepted only when the state it carries is the one
//! kept, and it takes both values out of the session whatever the outcome of
//! the check, so that a state serves at most once.
use vstd::prelude::*;

use crate::database::{UserModel, unix_epoch};
use crate::errors::{AppError, BAD_REQUEST, INTERNAL_SERVER_ERROR, bad_request, server_error};
use crate::oauth::{new_csrf_state, new_pkce_sha256, pkce_s256_challenge};
use crate::session::{SessionData, USER_ID_KEY};

verus! {

/// The session key of the CSRF state of a login in progress.
pub const COOKIE_AUTH_CSRF_STATE: &'static str = "auth_csrf_state";

/// The session key of the PKCE code verifier of a login in progress.
pub const COOKIE_AUTH_CODE_VERIFIER: &'static str = "auth_code_verifier";

/// The query of the authorization callback.
#[derive(Clone, Debug)]
pub struct AuthorizeQuery {
    pub code: String,
    pub state: String,
}

/// The fields of a Discord user that the server keeps.
#[derive(Debug)]
pub struct DiscordUser {
    pub id: String,
    pub username: String,
    /// The hash of the user's avatar image.
    pub avatar_hash: String,
}

/// The session once a login has started.
pub open spec fn session_after_login(
    s: Map<Seq<char>, Seq<char>>,
    state: Seq<char>,
    code_verifier: Seq<char>,
) -> Map<Seq<char>, Seq<char>> {
    s.insert(COOKIE_AUTH_CSRF_STATE@, state).insert(COOKIE_AUTH_CODE_VERIFIER@, code_verifier)
}

/// Whether the session holds, as the state of a login in progress, the state
/// that the callback carries.
pub open spec fn state_matches(s: Map<Seq<char>, Seq<char>>, query_state: Seq<char>) -> bool {
    s.contains_key(COOKIE_AUTH_CSRF_STATE@) && s[COOKIE_AUTH_CSRF_STATE@] == query_state
}

/// How the check of an authorization callback ends.
pub enum AuthorizationOutcome {
    /// The callback's state is not the one kept: the callback is refused.
    InvalidState,
    /// The state matches, but no code verifier was kept: the callback is refused.
    MissingVerifier,
    /// The callback is accepted; the token request goes on with this verifier.
    Verified(Seq<char>),
}

/// How the check of an authorization callback ends, for a given session.
pub open spec fn authorization_outcome(
    s: Map<Seq<char>, Seq<char>>,
    query_state: Seq<char>,
) -> AuthorizationOutcome {
    if !state_matches(s, query_state) {
        AuthorizationOutcome::InvalidState
    } else if !s.contains_key(COOKIE_AUTH_CODE_VERIFIER@) {
        AuthorizationOutcome::MissingVerifier
    } else {
        AuthorizationOutcome::Verified(s[COOKIE_AUTH_CODE_VERIFIER@])
    }
}

/// The session after the check of an authorization callback: the state is
/// taken out in every case, the verifier too once the state matched.
pub open spec fn session_after_authorization(
    s: Map<Seq<char>, Seq<char>>,
    query_state: Seq<char>,
) -> Map<Seq<char>, Seq<char>> {
    if state_matches(s, query_state) {
        s.remove(COOKIE_AUTH_CSRF_STATE@).remove(COOKIE_AUTH_CODE_VERIFIER@)
    } else {
        s.remove(COOKIE_AUTH_CSRF_STATE@)
    }
}

/// Keeps the state and the code verifier of a login that starts.
pub fn record_login(session: &mut SessionData, state: String, code_verifier: String)
    ensures
        final(session)@ == session_after_login(old(session)@, state@, code_verifier@),
{
    session.insert(String::from_str(COOKIE_AUTH_CSRF_STATE), state);
    session.insert(String::from_str(COOKIE_AUTH_CODE_VERIFIER), code_verifier);
}

/// What a login that starts sends to Discord: its CSRF state and the PKCE
/// challenge of the code verifier kept in the session.
pub struct LoginStart {
    pub state: String,
    pub pkce_challenge: oauth2::PkceCodeChallenge,
}

/// Starts a login: draws a CSRF state and a PKCE code verifier, keeps both in
/// the session, and gives the state and the challenge made of the verifier.
pub fn begin_login(session: &mut SessionData) -> (r: LoginStart)
    ensures
        final(session)@ == session_after_login(
            old(session)@,
            r.state@,
            final(session)@[COOKIE_AUTH_CODE_VERIFIER@],
        ),
        r.pkce_challenge == pkce_s256_challenge(final(session)@[COOKIE_AUTH_CODE_VERIFIER@]),
{
    let (pkce_challenge, code_verifier) = new_pkce_sha256();
    let state = new_csrf_state();
    let ghost verifier = code_verifier@;
    record_login(session, state.clone(), code_verifier);
    assert(final(session)@[COOKIE_AUTH_CODE_VERIFIER@] == verifier);
    LoginStart { state, pkce_challenge }
}

/// Checks the authorization callback against the login in progress and takes
/// the login's values out of the session; gives the code verifier for the token
/// request when the callback is accepted.
pub fn check_authorization(session: &mut SessionData, query: &AuthorizeQuery) -> (r: Result<
    String,
    AppError,
>)
    ensures
        final(session)@ == session_after_authorization(old(session)@, query.state@),
        match authorization_outcome(old(session)@, query.state@) {
            AuthorizationOutcome::InvalidState => r matches Err(AppError::Custom { status, detail })
                && status == BAD_REQUEST && detail@ == "Invalid CSRF state"@,
            AuthorizationOutcome::MissingVerifier => r matches Err(
                AppError::Custom { status, detail },
            ) && status == BAD_REQUEST && detail@ == "Missing code verifier"@,
            AuthorizationOutcome::Verified(v) => r matches Ok(verifier) && verifier@ == v,
        },
{
    proof {
        lemma_session_keys_differ();
    }
    let session_state = session.remove(COOKIE_AUTH_CSRF_STATE);
    let state_ok = match &session_state {
        Some(s) => *s == query.state,
        None => false,
    };
    if !state_ok {
        return Err(bad_request(String::from_str("Invalid CSRF state")));
    }
    match session.remove(COOKIE_AUTH_CODE_VERIFIER) {
        Some(verifier) => Ok(verifier),
        None => Err(bad_request(String::from_str("Missing code verifier"))),
    }
}

/// The Discord user that the profile request gave, or the error that answers a
/// failed profile request.
pub fn require_discord_user(fetched: Option<DiscordUser>) -> (r: Result<DiscordUser, AppError>)
    ensures
        match fetched {
            Some(user) => r == Ok::<DiscordUser, AppError>(user),
            None => r matches Err(AppError::Custom { status, detail }) && status
                == INTERNAL_SERVER_ERROR && detail@ == "Error obtaining token"@,
        },
{
    match fetched {
        Some(user) => Ok(user),
        None => Err(server_error(String::from_str("Error obtaining token"))),
    }
}

/// The record saved for a Discord user who signed in with the given access token.
pub fn user_from_discord(user: &DiscordUser, access_token: &str) -> (m: UserModel)
    ensures
        m.id@ == user.id@,
        m.username@ == user.username@,
        m.avatar matches Some(a) && a@ == user.avatar_hash@,
        m.access_token matches Some(t) && t@ == access_token@,
{
    UserModel {
        id: user.id.clone(),
        username: user.username.clone(),
        avatar: Some(user.avatar_hash.clone()),
        created_at: unix_epoch(),
        access_token: Some(String::from_str(access_token)),
    }
}

/// Marks the session as signed in as the given user.
pub fn record_sign_in(session: &mut SessionData, user: &UserModel)
    ensures
        final(session)@ == old(session)@.insert(USER_ID_KEY@, user.id@),
{
    session.insert(String::from_str(USER_ID_KEY), user.id.clone());
}

/// Signs the session out; the answer to the request is `true`.
pub fn logout(session: &mut SessionData) -> (r: bool)
    ensures
        final(session)@ == old(session)@.remove(USER_ID_KEY@),
        r,
{
    session.remove(USER_ID_KEY);
    true
}

/// The three session keys are different texts.
proof fn lemma_session_keys_differ()
    ensures
        COOKIE_AUTH_CSRF_STATE@ != COOKIE_AUTH_CODE_VERIFIER@,
        COOKIE_AUTH_CSRF_STATE@ != USER_ID_KEY@,
        COOKIE_AUTH_CODE_VERIFIER@ != USER_ID_KEY@,
{
    reveal_strlit("auth_csrf_state");
    reveal_strlit("auth_code_verifier");
    reveal_strlit("user_id");
    assert(COOKIE_AUTH_CSRF_STATE@[6] != COOKIE_AUTH_CODE_VERIFIER@[6]);
    assert(COOKIE_AUTH_CSRF_STATE@[0] != USER_ID_KEY@[0]);
    assert(COOKIE_AUTH_CODE_VERIFIER@[0] != USER_ID_KEY@[0]);
}

/// A callback that carries the state its login kept is accepted with that
/// login's code verifier, and leaves the session as it was before the login.
pub proof fn lemma_login_then_authorize(
    s: Map<Seq<char>, Seq<char>>,
    state: Seq<char>,
    code_verifier: Seq<char>,
)
    ensures
        authorization_outcome(session_after_login(s, state, code_verifier), state)
            == AuthorizationOutcome::Verified(code_verifier),
        session_after_authorization(session_after_login(s, state, code_verifier), state)
            == s.remove(COOKIE_AUTH_CSRF_STATE@).remove(COOKIE_AUTH_CODE_VERIFIER@),
{
    lemma_session_keys_differ();
    let l = session_after_login(s, state, code_verifier);
    assert(l.remove(COOKIE_AUTH_CSRF_STATE@).remove(COOKIE_AUTH_CODE_VERIFIER@) =~= s.remove(
        COOKIE_AUTH_CSRF_STATE@,
    ).remove(COOKIE_AUTH_CODE_VERIFIER@));
}

/// The code verifier that an accepted callback hands to the token request is
/// the one whose challenge the login sent to Discord.
pub proof fn lemma_token_request_matches_login_challenge(
    s: Map<Seq<char>, Seq<char>>,
    state: Seq<char>,
    code_verifier: Seq<char>,
)
    ensures
        authorization_outcome(session_after_login(s, state, code_verifier), state) matches
            AuthorizationOutcome::Verified(v) && pkce_s256_challenge(v) == pkce_s256_challenge(
            session_after_login(s, state, code_verifier)[COOKIE_AUTH_CODE_VERIFIER@],
        ),
{
    lemma_login_then_authorize(s, state, code_verifier);
}

/// A callback that carries another state than the one its login kept is
/// refused.
pub proof fn lemma_forged_state_is_refused(
    s: Map<Seq<char>, Seq<char>>,
    state: Seq<char>,
    code_verifier: Seq<char>,
    query_state: Seq<char>,
)
    requires
        query_state != state,
    ensures
        authorization_outcome(session_after_login(s, state, code_verifier), query_state)
            == AuthorizationOutcome::InvalidState,
{
    lemma_session_keys_differ();
}

/// A state serves at most once: after any callback, every later callback is
/// refused until a new login starts.
pub proof fn lemma_state_is_single_use(
    s: Map<Seq<char>, Seq<char>>,
    query_state: Seq<char>,
    later_state: Seq<char>,
)
    ensures
        authorization_outcome(session_after_authorization(s, query_state), later_state)
            == AuthorizationOutcome::InvalidState,
{
    lemma_session_keys_differ();
}

/// Logging in and checking a callback leave the signed-in user of the session
/// as it was.
pub proof fn lemma_login_keeps_signed_in_user(
    s: Map<Seq<char>, Seq<char>>,
    state: Seq<char>,
    code_verifier: Seq<char>,
    query_state: Seq<char>,
)
    ensures
        session_after_login(s, state, code_verifier).contains_key(USER_ID_KEY@)
            == s.contains_key(USER_ID_KEY@),
        session_after_login(s, state, code_verifier)[USER_ID_KEY@] == s[USER_ID_KEY@],
        session_after_authorization(s, query_state).contains_key(USER_ID_KEY@) == s.contains_key(
            USER_ID_KEY@,
        ),
        session_after_authorization(s, query_state)[USER_ID_KEY@] == s[USER_ID_KEY@],
{
    lemma_session_keys_differ();
}

/// After an accepted callback and the sign-in of the saved user, the session
/// names that user, holds neither value of the login, and keeps every other
/// entry it had.
pub proof fn lemma_callback_then_sign_in(
    s: Map<Seq<char>, Seq<char>>,
    query_state: Seq<char>,
    user_id: Seq<char>,
)
    requires
        authorization_outcome(s, query_state) is Verified,
    ensures
        session_after_authorization(s, query_state).insert(USER_ID_KEY@, user_id)
            == s.remove(COOKIE_AUTH_CSRF_STATE@).remove(COOKIE_AUTH_CODE_VERIFIER@).insert(
            USER_ID_KEY@,
            user_id,
        ),
        session_after_authorization(s, query_state).insert(USER_ID_KEY@, user_id)[USER_ID_KEY@]
            == user_id,
        !session_after_authorization(s, query_state).insert(USER_ID_KEY@, user_id).contains_key(
            COOKIE_AUTH_CSRF_STATE@,
        ),
        !session_after_authorization(s, query_state).insert(USER_ID_KEY@, user_id).contains_key(
            COOKIE_AUTH_CODE_VERIFIER@,
        ),
{
    lemma_session_keys_differ();
}

/// After signing in, the session names the signed-in user; after signing out,
/// it names none.
pub proof fn lemma_sign_in_and_out(s: Map<Seq<char>, Seq<char>>, user_id: Seq<char>)
    ensures
        s.insert(USER_ID_KEY@, user_id).contains_key(USER_ID_KEY@),
        s.insert(USER_ID_KEY@, user_id)[USER_ID_KEY@] == user_id,
        !s.insert(USER_ID_KEY@, user_id).remove(USER_ID_KEY@).contains_key(USER_ID_KEY@),
{
}

} // verus!
