use vstd::prelude::*;

verus! {

/// The error type of sqlx (database access); carried through, never read.
#[verifier::external_type_specification]
#[verifier::external_body]
pub struct ExSqlxError(sqlx::Error);

/// The error type of redis (cache access); carried through, never read.
#[verifier::external_type_specification]
#[verifier::external_body]
pub struct ExRedisError(redis::RedisError);

/// What can go wrong while serving a request.
#[derive(Debug)]
pub enum ApiError {
    SqlxError(sqlx::Error),
    RedisError(redis::RedisError),
    Internal(String),
    NotFound(String),
    ValidationError(String),
}

/// The gRPC status codes that an `ApiError` is answered with.
#[derive(Debug, Clone, Copy, PartialEq, Eq, Structural)]
pub enum RpcCode {
    Unavailable,
    Internal,
    NotFound,
    InvalidArgument,
}

/// A gRPC error status: its code and its message.
#[derive(Debug)]
pub struct RpcStatus {
    pub code: RpcCode,
    pub message: String,
}

/// The text of an error, as users read it.
pub open spec fn api_error_text(e: ApiError) -> Seq<char> {
    match e {
        ApiError::SqlxError(_) => "Database Error"@,
        ApiError::RedisError(_) => "Unable to connect to the cache. "@,
        ApiError::Internal(msg) => "Internal error: "@ + msg@,
        ApiError::NotFound(msg) => msg@ + " Not Found"@,
        ApiError::ValidationError(msg) => "Validation Error: "@ + msg@,
    }
}

/// The status code that answers an error.
pub open spec fn status_code_of(e: ApiError) -> RpcCode {
    match e {
        ApiError::SqlxError(_) => RpcCode::Unavailable,
        ApiError::RedisError(_) => RpcCode::Unavailable,
        ApiError::Internal(_) => RpcCode::Internal,
        ApiError::NotFound(_) => RpcCode::NotFound,
        ApiError::ValidationError(_) => RpcCode::InvalidArgument,
    }
}

/// The status message that answers an error: outside failures are named by
/// their service only, the others carry their own message.
pub open spec fn status_message_of(e: ApiError) -> Seq<char> {
    match e {
        ApiError::SqlxError(_) => "database error"@,
        ApiError::RedisError(_) => "redis error"@,
        ApiError::Internal(msg) => msg@,
        ApiError::NotFound(msg) => msg@,
        ApiError::ValidationError(msg) => msg@,
    }
}

/// No detail of a driver error reaches the client: any two database errors
/// are answered with the same status, and so are any two cache errors.
pub proof fn lemma_driver_errors_answered_alike(
    e1: sqlx::Error,
    e2: sqlx::Error,
    r1: redis::RedisError,
    r2: redis::RedisError,
)
    ensures
        status_code_of(ApiError::SqlxError(e1)) == status_code_of(ApiError::SqlxError(e2)),
        status_message_of(ApiError::SqlxError(e1)) == status_message_of(ApiError::SqlxError(e2)),
        status_code_of(ApiError::RedisError(r1)) == status_code_of(ApiError::RedisError(r2)),
        status_message_of(ApiError::RedisError(r1)) == status_message_of(
            ApiError::RedisError(r2),
        ),
{
}

impl vstd::std_specs::convert::FromSpecImpl<sqlx::Error> for ApiError {
    open spec fn obeys_from_spec() -> bool {
        true
    }

    open spec fn from_spec(e: sqlx::Error) -> ApiError {
        ApiError::SqlxError(e)
    }
}

impl From<sqlx::Error> for ApiError {
    /// A database error.
    fn from(e: sqlx::Error) -> (r: ApiError) {
        ApiError::SqlxError(e)
    }
}

impl vstd::std_specs::convert::FromSpecImpl<redis::RedisError> for ApiError {
    open spec fn obeys_from_spec() -> bool {
        true
    }

    open spec fn from_spec(e: redis::RedisError) -> ApiError {
        ApiError::RedisError(e)
    }
}

impl From<redis::RedisError> for ApiError {
    /// A cache error.
    fn from(e: redis::RedisError) -> (r: ApiError) {
        ApiError::RedisError(e)
    }
}

impl ApiError {
    /// The text of the error, as users read it.
    pub fn message(&self) -> (r: String)
        ensures
            r@ == api_error_text(*self),
    {
        match self {
            ApiError::SqlxError(_) => String::from_str("Database Error"),
            ApiError::RedisError(_) => String::from_str("Unable to connect to the cache. "),
            ApiError::Internal(msg) => {
                let mut out = String::from_str("Internal error: ");
                out.append(msg.as_str());
                out
            },
            ApiError::NotFound(msg) => {
                let mut out = msg.clone();
                out.append(" Not Found");
                out
            },
            ApiError::ValidationError(msg) => {
                let mut out = String::from_str("Validation Error: ");
                out.append(msg.as_str());
                out
            },
        }
    }

    /// The gRPC status that answers this error.
    pub fn into_status(self) -> (r: RpcStatus)
        ensures
            r.code == status_code_of(self),
            r.message@ == status_message_of(self),
    {
        match self {
            ApiError::SqlxError(_) => RpcStatus {
                code: RpcCode::Unavailable,
                message: String::from_str("database error"),
            },
            ApiError::RedisError(_) => RpcStatus {
                code: RpcCode::Unavailable,
                message: String::from_str("redis error"),
            },
            ApiError::Internal(msg) => RpcStatus { code: RpcCode::Internal, message: msg },
            ApiError::NotFound(msg) => RpcStatus { code: RpcCode::NotFound, message: msg },
            ApiError::ValidationError(msg) => RpcStatus {
                code: RpcCode::InvalidArgument,
                message: msg,
            },
        }
    }
}

} // verus!
