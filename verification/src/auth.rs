//! Which credentials an endpoint accepts, and how a request is authenticated
//! from its cookie session.
use vstd::prelude::*;

use crate::database::UserModel;
use crate::errors::{AppError, FORBIDDEN, forbidden, internal};
use crate::session::{SessionData, USER_ID_KEY};

verus! {

/// The authentication requirements of an endpoint.
#[derive(Debug, Clone)]
pub struct AuthCheck {
    pub allow_token: bool,
    pub endpoint_scope: Option<()>,
}

/// Whether a token with the given scopes may call an endpoint that allows the
/// given scope: a token without scopes may call anything; a scoped token only
/// an endpoint whose scope it holds.
pub open spec fn scope_matches(token_scopes: Option<Seq<()>>, endpoint_scope: Option<()>) -> bool {
    match (token_scopes, endpoint_scope) {
        (None, _) => true,
        (Some(_), None) => false,
        (Some(scopes), Some(scope)) => scopes.contains(scope),
    }
}

impl AuthCheck {
    /// Accepts cookie sessions and API tokens, with no endpoint scope.
    #[allow(clippy::should_implement_trait)]
    pub fn default() -> (check: Self)
        ensures
            check.allow_token,
            check.endpoint_scope is None,
    {
        Self { allow_token: true, endpoint_scope: None }
    }

    /// Accepts only cookie sessions.
    pub fn only_cookie() -> (check: Self)
        ensures
            !check.allow_token,
            check.endpoint_scope is None,
    {
        Self { allow_token: false, endpoint_scope: None }
    }

    /// Whether a token with the given scopes may call this endpoint.
    pub fn endpoint_scope_matches(&self, token_scopes: Option<&Vec<()>>) -> (r: bool)
        ensures
            r == scope_matches(
                match token_scopes {
                    Some(v) => Some(v@),
                    None => None,
                },
                self.endpoint_scope,
            ),
    {
        match (token_scopes, self.endpoint_scope) {
            (None, _) => true,
            (Some(_), None) => false,
            (Some(scopes), Some(scope)) => {
                // every value of `()` is the same, so a scope list holds the
                // endpoint's scope exactly when it is not empty
                let found = scopes.len() != 0;
                proof {
                    if found {
                        assert(scopes@[0] == scope);
                    }
                }
                found
            },
        }
    }

    /// The first step of authenticating a request: the session's user ID, to be
    /// looked up in the database, or the refusal of a request without one,
    /// with the cause that the request log gains.
    pub fn start(&self, session: &SessionData) -> (r: AuthStep)
        ensures
            match r {
                AuthStep::LookUpUser(id) => session@.contains_key(USER_ID_KEY@) && id@
                    == session@[USER_ID_KEY@],
                AuthStep::Refused { error, log } => !session@.contains_key(USER_ID_KEY@) && (error
                    matches AppError::Custom { status, detail } && status == FORBIDDEN && detail@
                    == "this action requires authentication"@) && log.key@ == "cause"@
                    && log.value@ == "no cookie session or auth header found"@,
            },
    {
        match session_user_id(session) {
            Some(id) => AuthStep::LookUpUser(id),
            None => AuthStep::Refused {
                error: forbidden(String::from_str("this action requires authentication")),
                log: LogEntry {
                    key: String::from_str("cause"),
                    value: String::from_str("no cookie session or auth header found"),
                },
            },
        }
    }

    /// The last step of authenticating a request whose session names the user
    /// `user_id`: the user that the lookup found, with the entry `uid` for the
    /// request log; or, where the lookup failed, an internal error, with the
    /// lookup's error as the `cause` for the request log.
    pub fn finish(&self, user_id: &str, lookup: Result<UserModel, AppError>) -> (r: (
        Result<Authentication, AppError>,
        LogEntry,
    ))
        ensures
            match lookup {
                Ok(user) => (r.0 matches Ok(auth) && auth.user_model() == user) && r.1.key@
                    == "uid"@ && r.1.value@ == user_id@,
                Err(err) => (r.0 matches Err(AppError::Internal { description }) && description@
                    == "user_id from cookie not found in database"@) && r.1.key@ == "cause"@
                    && r.1.value@ == err.spec_message(),
            },
    {
        match lookup {
            Ok(user) => (
                Ok(Authentication::Cookie(CookieAuthentication { user })),
                LogEntry { key: String::from_str("uid"), value: String::from_str(user_id) },
            ),
            Err(err) => (
                Err(internal(String::from_str("user_id from cookie not found in database"))),
                LogEntry { key: String::from_str("cause"), value: err.message() },
            ),
        }
    }
}

/// An entry that a request adds to the request log.
#[derive(Debug, Clone)]
pub struct LogEntry {
    pub key: String,
    pub value: String,
}

/// What authenticating a request needs next.
#[derive(Debug)]
pub enum AuthStep {
    /// Look up the user with this ID.
    LookUpUser(String),
    /// The request is refused with this error; the request log gains `log`.
    Refused { error: AppError, log: LogEntry },
}

/// The user ID that a session holds, if it holds one.
pub fn session_user_id(session: &SessionData) -> (r: Option<String>)
    ensures
        match r {
            Some(id) => session@.contains_key(USER_ID_KEY@) && id@ == session@[USER_ID_KEY@],
            None => !session@.contains_key(USER_ID_KEY@),
        },
{
    session.get(USER_ID_KEY)
}

/// How a request was authenticated.
#[derive(Debug)]
pub enum Authentication {
    Cookie(CookieAuthentication),
}

/// Authentication by a cookie session of a signed-in user.
#[derive(Debug)]
pub struct CookieAuthentication {
    user: UserModel,
}

impl CookieAuthentication {
    /// The signed-in user.
    pub closed spec fn user_model(self) -> UserModel {
        self.user
    }
}

impl Authentication {
    /// The authenticated user.
    pub open spec fn user_model(self) -> UserModel {
        match self {
            Authentication::Cookie(cookie) => cookie.user_model(),
        }
    }

    /// The ID of the authenticated user.
    pub fn user_id(&self) -> (id: String)
        ensures
            id@ == self.user_model().id@,
    {
        self.user().id.clone()
    }

    /// The authenticated user.
    pub fn user(&self) -> (u: &UserModel)
        ensures
            *u == self.user_model(),
    {
        match self {
            Authentication::Cookie(cookie) => &cookie.user,
        }
    }
}

} // verus!
