//! The errors that request handlers return, and the response each one becomes.
//!
//! Client errors carry an HTTP status and a detail message that is shown to the
//! client. Internal errors, and errors of the libraries the server talks to, are
//! answered with a plain status 500 and their description goes only to the
//! request log.
use vstd::prelude::*;

verus! {

pub const BAD_REQUEST: u16 = 400;

pub const FORBIDDEN: u16 = 403;

pub const NOT_FOUND: u16 = 404;

pub const INTERNAL_SERVER_ERROR: u16 = 500;

pub const SERVICE_UNAVAILABLE: u16 = 503;

/// The library an external error came from; what `is::<T>()` tells apart.
#[derive(Debug, Clone, Copy, PartialEq, Eq, Structural)]
pub enum ErrorSource {
    /// `url::ParseError`
    Url,
    /// `sqlx::Error`
    Database,
    /// `serde_json::Error`
    Json,
    /// `reqwest::Error`
    Http,
    /// `std::io::Error`
    Io,
    /// `anyhow::Error`
    Anyhow,
    /// the transport error of an OAuth token request
    TokenRequest,
}

/// The kind of an [`AppError`], used to ask which type of error it is.
#[derive(Debug, Clone, Copy, PartialEq, Eq, Structural)]
pub enum AppErrorKind {
    Custom,
    Internal,
    External(ErrorSource),
}

/// An error produced while handling a request.
#[derive(Debug, Clone)]
pub enum AppError {
    /// A client error: its status and its detail are sent to the client.
    Custom { status: u16, detail: String },
    /// An internal error with a description for the logs.
    Internal { description: String },
    /// An error of another library, carried as its message.
    External { source: ErrorSource, message: String },
}

/// What an error is answered with.
#[derive(Debug, Clone)]
pub enum ErrorReply {
    /// The status, with the JSON body `{"errors": [{"detail": detail}]}`.
    Json { status: u16, detail: String },
    /// Status 500 with the body "Internal Server Error"; `cause` goes to the request log.
    Internal { cause: String },
}

impl ErrorReply {
    /// The plain-text body of every status-500 response.
    pub fn internal_body() -> (b: &'static str)
        ensures
            b@ == "Internal Server Error"@,
    {
        "Internal Server Error"
    }

    /// The HTTP status of the response.
    pub open spec fn spec_status(self) -> u16 {
        match self {
            ErrorReply::Json { status, .. } => status,
            ErrorReply::Internal { .. } => INTERNAL_SERVER_ERROR,
        }
    }

    /// The HTTP status of the response.
    pub fn status(&self) -> (s: u16)
        ensures
            s == self.spec_status(),
            self matches ErrorReply::Json { status, .. } ==> s == status,
            self is Internal ==> s == 500,
    {
        match self {
            ErrorReply::Json { status, .. } => *status,
            ErrorReply::Internal { .. } => INTERNAL_SERVER_ERROR,
        }
    }
}

impl AppError {
    /// The kind of this error.
    pub open spec fn spec_kind(self) -> AppErrorKind {
        match self {
            AppError::Custom { .. } => AppErrorKind::Custom,
            AppError::Internal { .. } => AppErrorKind::Internal,
            AppError::External { source, .. } => AppErrorKind::External(source),
        }
    }

    /// The response an error is answered with: client errors as JSON with their
    /// status and detail, every other error as a bare status 500 whose cause is
    /// only logged.
    pub open spec fn spec_response(self) -> ErrorReply {
        match self {
            AppError::Custom { status, detail } => ErrorReply::Json { status, detail },
            AppError::Internal { description } => ErrorReply::Internal { cause: description },
            AppError::External { message, .. } => ErrorReply::Internal { cause: message },
        }
    }

    /// The text of this error: a client error's detail, an internal error's
    /// description, or the message of another library's error.
    pub open spec fn spec_message(self) -> Seq<char> {
        match self {
            AppError::Custom { detail, .. } => detail@,
            AppError::Internal { description } => description@,
            AppError::External { message, .. } => message@,
        }
    }

    /// The text of this error, as it is written to the request log.
    pub fn message(&self) -> (m: String)
        ensures
            m@ == self.spec_message(),
    {
        match self {
            AppError::Custom { detail, .. } => detail.clone(),
            AppError::Internal { description } => description.clone(),
            AppError::External { message, .. } => message.clone(),
        }
    }

    /// The kind of this error.
    pub fn kind(&self) -> (k: AppErrorKind)
        ensures
            k == self.spec_kind(),
    {
        match self {
            AppError::Custom { .. } => AppErrorKind::Custom,
            AppError::Internal { .. } => AppErrorKind::Internal,
            AppError::External { source, .. } => AppErrorKind::External(*source),
        }
    }

    /// Whether this error is of the given kind.
    pub fn is(&self, kind: AppErrorKind) -> (b: bool)
        ensures
            b == (self.spec_kind() == kind),
    {
        let k = self.kind();
        match (k, kind) {
            (AppErrorKind::Custom, AppErrorKind::Custom) => true,
            (AppErrorKind::Internal, AppErrorKind::Internal) => true,
            (AppErrorKind::External(a), AppErrorKind::External(b)) => a == b,
            _ => false,
        }
    }

    /// Generates the HTTP response for the error.
    pub fn response(&self) -> (r: ErrorReply)
        ensures
            r == self.spec_response(),
    {
        match self {
            AppError::Custom { status, detail } => ErrorReply::Json {
                status: *status,
                detail: detail.clone(),
            },
            AppError::Internal { description } => ErrorReply::Internal {
                cause: description.clone(),
            },
            AppError::External { message, .. } => ErrorReply::Internal {
                cause: message.clone(),
            },
        }
    }
}

/// An error with the given status and detail, answered as JSON.
pub fn custom(status: u16, detail: String) -> (e: AppError)
    ensures
        e == (AppError::Custom { status, detail }),
{
    AppError::Custom { status, detail }
}

/// Return an error with status 400 and the provided description as JSON
pub fn bad_request(error: String) -> (e: AppError)
    ensures
        e == (AppError::Custom { status: BAD_REQUEST, detail: error }),
{
    custom(BAD_REQUEST, error)
}

/// Return an error with status 403 and the provided detail as JSON
pub fn forbidden(detail: String) -> (e: AppError)
    ensures
        e == (AppError::Custom { status: FORBIDDEN, detail }),
{
    custom(FORBIDDEN, detail)
}

/// Return an error with status 404 and the detail "Not Found"
pub fn not_found() -> (e: AppError)
    ensures
        e matches AppError::Custom { status, detail } && status == NOT_FOUND && detail@
            == "Not Found"@,
{
    custom(NOT_FOUND, String::from_str("Not Found"))
}

/// Returns an error with status 500 and the provided description as JSON
pub fn server_error(error: String) -> (e: AppError)
    ensures
        e == (AppError::Custom { status: INTERNAL_SERVER_ERROR, detail: error }),
{
    custom(INTERNAL_SERVER_ERROR, error)
}

/// Returns an error with status 503 and the detail "Service unavailable"
pub fn service_unavailable() -> (e: AppError)
    ensures
        e matches AppError::Custom { status, detail } && status == SERVICE_UNAVAILABLE
            && detail@ == "Service unavailable"@,
{
    custom(SERVICE_UNAVAILABLE, String::from_str("Service unavailable"))
}

/// Returns an error with status 404 saying that the named bot does not exist
pub fn bot_not_found(bot: &str) -> (e: AppError)
    ensures
        e matches AppError::Custom { status, detail } && status == NOT_FOUND && detail@
            == "bot `"@ + bot@ + "` does not exist"@,
{
    let detail = String::from_str("bot `").concat(bot).concat("` does not exist");
    custom(NOT_FOUND, detail)
}

/// An internal error: answered with status 500, its description only logged.
pub fn internal(error: String) -> (e: AppError)
    ensures
        e == (AppError::Internal { description: error }),
{
    AppError::Internal { description: error }
}

/// An error of another library, carried as its message.
pub fn external(source: ErrorSource, message: String) -> (e: AppError)
    ensures
        e == (AppError::External { source, message }),
{
    AppError::External { source, message }
}

/// How a request for an OAuth access token failed, with the messages of the
/// underlying errors.
#[derive(Debug, Clone)]
pub enum TokenRequestFailure {
    /// The authorization server answered with an error response.
    ServerResponse,
    /// Sending the request or receiving the response failed.
    Request { message: String },
    /// The server's response could not be parsed.
    Parse { message: String },
    /// Some other failure, such as an unexpected server response.
    Other { message: String },
}

impl TokenRequestFailure {
    /// Converts a failed token request into the error it is answered with: a
    /// transport failure is an internal error, everything else a bad request.
    pub fn into_app_error(self) -> (e: AppError)
        ensures
            match self {
                TokenRequestFailure::Request { message } => e == (AppError::External {
                    source: ErrorSource::TokenRequest,
                    message,
                }),
                TokenRequestFailure::Parse { message } => e == (AppError::Custom {
                    status: BAD_REQUEST,
                    detail: message,
                }),
                TokenRequestFailure::Other { message } => e == (AppError::Custom {
                    status: BAD_REQUEST,
                    detail: message,
                }),
                TokenRequestFailure::ServerResponse => e matches AppError::Custom {
                    status,
                    detail,
                } && status == BAD_REQUEST && detail@ == "Invalid response from server"@,
            },
    {
        match self {
            TokenRequestFailure::Request { message } => external(
                ErrorSource::TokenRequest,
                message,
            ),
            TokenRequestFailure::Parse { message } => custom(BAD_REQUEST, message),
            TokenRequestFailure::Other { message } => custom(BAD_REQUEST, message),
            TokenRequestFailure::ServerResponse => custom(
                BAD_REQUEST,
                String::from_str("Invalid response from server"),
            ),
        }
    }
}

/// A client error is answered with exactly the status it carries, whatever that
/// status is; every other error is answered with status 500.
pub proof fn lemma_reply_status_is_error_status(e: AppError)
    ensures
        e matches AppError::Custom { status, .. } ==> e.spec_response().spec_status() == status,
        !(e is Custom) ==> e.spec_response().spec_status() == 500,
        forall|status: u16, detail: String|
            (#[trigger] (ErrorReply::Json { status, detail }).spec_status()) == status,
{
}

/// The client errors that the constructors make are answered with their own
/// statuses: 400, 403, 404, 500 and 503.
pub proof fn lemma_constructor_statuses(detail: String)
    ensures
        (AppError::Custom { status: BAD_REQUEST, detail }).spec_response().spec_status() == 400,
        (AppError::Custom { status: FORBIDDEN, detail }).spec_response().spec_status() == 403,
        (AppError::Custom { status: NOT_FOUND, detail }).spec_response().spec_status() == 404,
        (AppError::Custom { status: INTERNAL_SERVER_ERROR, detail }).spec_response().spec_status()
            == 500,
        (AppError::Custom { status: SERVICE_UNAVAILABLE, detail }).spec_response().spec_status()
            == 503,
{
}

/// Every error that is not a client error is answered with status 500 and the
/// fixed body, so its description never reaches the client; a client error is
/// answered with exactly its own status and detail.
pub proof fn lemma_only_client_errors_show_detail(e: AppError)
    ensures
        e is Custom <==> e.spec_response() is Json,
        !(e is Custom) ==> e.spec_response().spec_status() == INTERNAL_SERVER_ERROR,
        e matches AppError::Custom { status, detail } ==> e.spec_response() == (
        ErrorReply::Json { status, detail }),
{
}

} // verus!
