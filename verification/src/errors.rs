use vstd::prelude::*;

verus! {

/// The password-hashing error of the `password-hash` crate (re-exported by `argon2`).
#[verifier::external_type_specification]
#[verifier::external_body]
pub struct ExPasswordHashError(argon2::password_hash::Error);

/// The error type of `jwt_simple` (an `anyhow::Error`).
#[verifier::external_type_specification]
#[verifier::external_body]
pub struct ExTokenError(jwt_simple::Error);

/// The error of converting an HTTP header value to text.
#[verifier::external_type_specification]
#[verifier::external_body]
pub struct ExToStrError(actix_web::http::header::ToStrError);

/// Everything that can go wrong while serving a request.
#[derive(Debug)]
pub enum AppError {
    RecordAlreadyExists,
    RecordNotFound,
    /// A failure reported by the database client, held as its debug text.
    DatabaseError(String),
    OperationCancelled,
    HashingError(argon2::password_hash::Error),
    TokenError(jwt_simple::Error),
    BadPassword,
    HeaderConversionError(actix_web::http::header::ToStrError),
    Unauthorized(String),
    Other,
}

/// The HTTP status code that answers an error.
pub open spec fn status_of(e: AppError) -> u16 {
    match e {
        AppError::RecordAlreadyExists => 400,
        AppError::RecordNotFound => 404,
        AppError::BadPassword => 401,
        AppError::Unauthorized(_) => 401,
        AppError::DatabaseError(_) => 418,
        _ => 500,
    }
}

/// The status code of an error depends on its kind alone, never on the text it
/// carries: for every detail and reason, a unique violation is answered 400, a
/// missing record 404, a wrong password or an unauthorized request 401, every
/// database error 418, and every other error 500.
pub proof fn lemma_status_depends_on_kind_only(
    detail: String,
    reason: String,
    hashing: argon2::password_hash::Error,
    token: jwt_simple::Error,
    header: actix_web::http::header::ToStrError,
)
    ensures
        status_of(AppError::RecordAlreadyExists) == 400,
        status_of(AppError::RecordNotFound) == 404,
        status_of(AppError::BadPassword) == 401,
        status_of(AppError::Unauthorized(reason)) == 401,
        status_of(AppError::DatabaseError(detail)) == 418,
        status_of(AppError::OperationCancelled) == 500,
        status_of(AppError::Other) == 500,
        status_of(AppError::HashingError(hashing)) == 500,
        status_of(AppError::TokenError(token)) == 500,
        status_of(AppError::HeaderConversionError(header)) == 500,
{
}

/// The text of an error carries its detail verbatim after a fixed lead: for
/// every reason and detail, an unauthorized request reads `Unauthorized: `
/// followed by the reason, and a database error `Database error: ` followed by
/// the detail; an error without such text is described by its kind alone.
pub proof fn lemma_message_carries_detail(detail: String, reason: String, hashing: argon2::password_hash::Error)
    ensures
        message_of(AppError::Unauthorized(reason)) == "Unauthorized: "@ + reason@,
        message_of(AppError::DatabaseError(detail)) == "Database error: "@ + detail@,
        message_of(AppError::HashingError(hashing)) == "Internal server error"@,
{
}

impl AppError {
    /// The HTTP status code of this error (`418 I'm a teapot` for database failures).
    pub fn status_code(&self) -> (code: u16)
        ensures
            code == status_of(*self),
    {
        match self {
            AppError::RecordAlreadyExists => 400,
            AppError::RecordNotFound => 404,
            AppError::BadPassword => 401,
            AppError::Unauthorized(_) => 401,
            AppError::DatabaseError(_) => 418,
            _ => 500,
        }
    }
}

/// The text that describes an error to the client.
pub open spec fn message_of(e: AppError) -> Seq<char> {
    match e {
        AppError::RecordAlreadyExists => "This record violates a unique constraint"@,
        AppError::RecordNotFound => "This record does not exist"@,
        AppError::OperationCancelled => "The running operation was cancelled"@,
        AppError::BadPassword => "Wrong password"@,
        AppError::Unauthorized(reason) => "Unauthorized: "@ + reason@,
        AppError::DatabaseError(detail) => "Database error: "@ + detail@,
        _ => "Internal server error"@,
    }
}

impl AppError {
    /// The text shown to the client for this error.
    pub fn message(&self) -> (text: String)
        ensures
            text@ == message_of(*self),
    {
        match self {
            AppError::RecordAlreadyExists => String::from_str("This record violates a unique constraint"),
            AppError::RecordNotFound => String::from_str("This record does not exist"),
            AppError::OperationCancelled => String::from_str("The running operation was cancelled"),
            AppError::BadPassword => String::from_str("Wrong password"),
            AppError::Unauthorized(reason) => String::from_str("Unauthorized: ").concat(reason.as_str()),
            AppError::DatabaseError(detail) => String::from_str("Database error: ").concat(detail.as_str()),
            _ => String::from_str("Internal server error"),
        }
    }
}

/// The body of the reply to a failed request.
#[derive(Debug)]
pub struct ErrorResponse {
    pub err: String,
}

/// The reply to a failed request: its status code and its body.
#[derive(Debug)]
pub struct ErrorReply {
    pub status: u16,
    pub body: ErrorResponse,
}

impl AppError {
    /// The reply that answers this error: its status code, and its text under `err`.
    pub fn error_reply(&self) -> (reply: ErrorReply)
        ensures
            reply.status == status_of(*self),
            reply.body.err@ == message_of(*self),
    {
        ErrorReply { status: self.status_code(), body: ErrorResponse { err: self.message() } }
    }
}

impl From<argon2::password_hash::Error> for AppError {
    fn from(e: argon2::password_hash::Error) -> (r: Self) {
        AppError::HashingError(e)
    }
}

impl vstd::std_specs::convert::FromSpecImpl<argon2::password_hash::Error> for AppError {
    open spec fn obeys_from_spec() -> bool {
        true
    }

    open spec fn from_spec(e: argon2::password_hash::Error) -> Self {
        AppError::HashingError(e)
    }
}

impl From<jwt_simple::Error> for AppError {
    fn from(e: jwt_simple::Error) -> (r: Self) {
        AppError::TokenError(e)
    }
}

impl vstd::std_specs::convert::FromSpecImpl<jwt_simple::Error> for AppError {
    open spec fn obeys_from_spec() -> bool {
        true
    }

    open spec fn from_spec(e: jwt_simple::Error) -> Self {
        AppError::TokenError(e)
    }
}

impl From<actix_web::http::header::ToStrError> for AppError {
    fn from(e: actix_web::http::header::ToStrError) -> (r: Self) {
        AppError::HeaderConversionError(e)
    }
}

impl vstd::std_specs::convert::FromSpecImpl<actix_web::http::header::ToStrError> for AppError {
    open spec fn obeys_from_spec() -> bool {
        true
    }

    open spec fn from_spec(e: actix_web::http::header::ToStrError) -> Self {
        AppError::HeaderConversionError(e)
    }
}

} // verus!
