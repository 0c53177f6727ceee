//! Error codes and structured errors of the API, with the HTTP status and
//! the default message of each code.

use vstd::prelude::*;
use crate::text::{decimal_text, owned, push_str, u64_to_string};

verus! {

#[verifier::external_type_specification]
#[verifier::external_body]
pub struct ExJsonValue(serde_json::Value);

/// Error codes for API responses.
#[derive(Debug, Clone, Copy, PartialEq, Eq, Hash, Structural)]
pub enum ErrorCode {
    /// Request lacks valid authentication credentials
    Unauthorized,
    /// Request is authenticated but lacks permission for the resource
    Forbidden,
    /// Authentication token is invalid or malformed
    InvalidToken,
    /// Authentication token has expired
    TokenExpired,
    /// Request validation failed
    ValidationFailed,
    /// Request contains invalid input data
    InvalidInput,
    /// Required field is missing from request
    MissingField,
    /// Field value is out of valid range
    InvalidRange,
    /// Field format is incorrect
    InvalidFormat,
    /// Requested entity does not exist
    EntityNotFound,
    /// Requested tenant does not exist
    TenantNotFound,
    /// Requested trajectory does not exist
    TrajectoryNotFound,
    /// Requested scope does not exist
    ScopeNotFound,
    /// Requested artifact does not exist
    ArtifactNotFound,
    /// Requested note does not exist
    NoteNotFound,
    /// Requested agent does not exist
    AgentNotFound,
    /// Requested lock does not exist
    LockNotFound,
    /// Requested message does not exist
    MessageNotFound,
    /// Requested API key does not exist
    ApiKeyNotFound,
    /// Requested webhook does not exist
    WebhookNotFound,
    /// Entity with the same identifier already exists
    EntityAlreadyExists,
    /// Concurrent modification detected (optimistic locking failure)
    ConcurrentModification,
    /// Lock conflict - resource is already locked
    LockConflict,
    /// Lock has expired
    LockExpired,
    /// Operation conflicts with current state
    StateConflict,
    /// Internal server error
    InternalError,
    /// Database operation failed
    DatabaseError,
    /// Service is temporarily unavailable
    ServiceUnavailable,
    /// Database connection pool exhausted
    ConnectionPoolExhausted,
    /// Operation timed out
    Timeout,
    /// Request rate limit exceeded
    TooManyRequests,
}

/// The HTTP status of each error code: 401 for authentication failures,
/// 403 forbidden, 400 validation, 404 not found, 409 conflicts, 503
/// unavailable, 504 timeout, 429 rate limited, 500 for the rest.
pub open spec fn status_of(code: ErrorCode) -> u16 {
    match code {
        ErrorCode::Unauthorized | ErrorCode::InvalidToken | ErrorCode::TokenExpired => 401,
        ErrorCode::Forbidden => 403,
        ErrorCode::ValidationFailed | ErrorCode::InvalidInput | ErrorCode::MissingField
        | ErrorCode::InvalidRange | ErrorCode::InvalidFormat => 400,
        ErrorCode::EntityNotFound | ErrorCode::TenantNotFound | ErrorCode::TrajectoryNotFound
        | ErrorCode::ScopeNotFound | ErrorCode::ArtifactNotFound | ErrorCode::NoteNotFound
        | ErrorCode::AgentNotFound | ErrorCode::LockNotFound | ErrorCode::MessageNotFound
        | ErrorCode::ApiKeyNotFound | ErrorCode::WebhookNotFound => 404,
        ErrorCode::EntityAlreadyExists | ErrorCode::ConcurrentModification | ErrorCode::LockConflict
        | ErrorCode::LockExpired | ErrorCode::StateConflict => 409,
        ErrorCode::ServiceUnavailable | ErrorCode::ConnectionPoolExhausted => 503,
        ErrorCode::Timeout => 504,
        ErrorCode::TooManyRequests => 429,
        ErrorCode::InternalError | ErrorCode::DatabaseError => 500,
    }
}

/// The default message of each error code.
pub open spec fn default_message_of(code: ErrorCode) -> Seq<char> {
    match code {
        ErrorCode::Unauthorized => "Authentication required"@,
        ErrorCode::Forbidden => "Access forbidden"@,
        ErrorCode::InvalidToken => "Invalid authentication token"@,
        ErrorCode::TokenExpired => "Authentication token has expired"@,
        ErrorCode::ValidationFailed => "Request validation failed"@,
        ErrorCode::InvalidInput => "Invalid input data"@,
        ErrorCode::MissingField => "Required field is missing"@,
        ErrorCode::InvalidRange => "Value is out of valid range"@,
        ErrorCode::InvalidFormat => "Invalid format"@,
        ErrorCode::EntityNotFound => "Entity not found"@,
        ErrorCode::TenantNotFound => "Tenant not found"@,
        ErrorCode::TrajectoryNotFound => "Trajectory not found"@,
        ErrorCode::ScopeNotFound => "Scope not found"@,
        ErrorCode::ArtifactNotFound => "Artifact not found"@,
        ErrorCode::NoteNotFound => "Note not found"@,
        ErrorCode::AgentNotFound => "Agent not found"@,
        ErrorCode::LockNotFound => "Lock not found"@,
        ErrorCode::MessageNotFound => "Message not found"@,
        ErrorCode::ApiKeyNotFound => "API key not found"@,
        ErrorCode::WebhookNotFound => "Webhook not found"@,
        ErrorCode::EntityAlreadyExists => "Entity already exists"@,
        ErrorCode::ConcurrentModification => "Concurrent modification detected"@,
        ErrorCode::LockConflict => "Resource is locked by another agent"@,
        ErrorCode::LockExpired => "Lock has expired"@,
        ErrorCode::StateConflict => "Operation conflicts with current state"@,
        ErrorCode::InternalError => "Internal server error"@,
        ErrorCode::DatabaseError => "Database operation failed"@,
        ErrorCode::ServiceUnavailable => "Service temporarily unavailable"@,
        ErrorCode::ConnectionPoolExhausted => "Connection pool exhausted"@,
        ErrorCode::Timeout => "Operation timed out"@,
        ErrorCode::TooManyRequests => "Rate limit exceeded"@,
    }
}

/// The name of each error code, as it is displayed.
pub open spec fn code_name(code: ErrorCode) -> Seq<char> {
    match code {
        ErrorCode::Unauthorized => "Unauthorized"@,
        ErrorCode::Forbidden => "Forbidden"@,
        ErrorCode::InvalidToken => "InvalidToken"@,
        ErrorCode::TokenExpired => "TokenExpired"@,
        ErrorCode::ValidationFailed => "ValidationFailed"@,
        ErrorCode::InvalidInput => "InvalidInput"@,
        ErrorCode::MissingField => "MissingField"@,
        ErrorCode::InvalidRange => "InvalidRange"@,
        ErrorCode::InvalidFormat => "InvalidFormat"@,
        ErrorCode::EntityNotFound => "EntityNotFound"@,
        ErrorCode::TenantNotFound => "TenantNotFound"@,
        ErrorCode::TrajectoryNotFound => "TrajectoryNotFound"@,
        ErrorCode::ScopeNotFound => "ScopeNotFound"@,
        ErrorCode::ArtifactNotFound => "ArtifactNotFound"@,
        ErrorCode::NoteNotFound => "NoteNotFound"@,
        ErrorCode::AgentNotFound => "AgentNotFound"@,
        ErrorCode::LockNotFound => "LockNotFound"@,
        ErrorCode::MessageNotFound => "MessageNotFound"@,
        ErrorCode::ApiKeyNotFound => "ApiKeyNotFound"@,
        ErrorCode::WebhookNotFound => "WebhookNotFound"@,
        ErrorCode::EntityAlreadyExists => "EntityAlreadyExists"@,
        ErrorCode::ConcurrentModification => "ConcurrentModification"@,
        ErrorCode::LockConflict => "LockConflict"@,
        ErrorCode::LockExpired => "LockExpired"@,
        ErrorCode::StateConflict => "StateConflict"@,
        ErrorCode::InternalError => "InternalError"@,
        ErrorCode::DatabaseError => "DatabaseError"@,
        ErrorCode::ServiceUnavailable => "ServiceUnavailable"@,
        ErrorCode::ConnectionPoolExhausted => "ConnectionPoolExhausted"@,
        ErrorCode::Timeout => "Timeout"@,
        ErrorCode::TooManyRequests => "TooManyRequests"@,
    }
}

impl ErrorCode {
    /// Get the HTTP status code for this error code.
    pub fn status_code(&self) -> (s: u16)
        ensures
            s == status_of(*self),
            (*self == ErrorCode::EntityAlreadyExists || *self == ErrorCode::ConcurrentModification
                || *self == ErrorCode::LockConflict || *self == ErrorCode::LockExpired
                || *self == ErrorCode::StateConflict) <==> s == 409,
            (*self == ErrorCode::Unauthorized || *self == ErrorCode::InvalidToken
                || *self == ErrorCode::TokenExpired) <==> s == 401,
            *self == ErrorCode::Forbidden <==> s == 403,
            (*self == ErrorCode::ValidationFailed || *self == ErrorCode::InvalidInput
                || *self == ErrorCode::MissingField || *self == ErrorCode::InvalidRange
                || *self == ErrorCode::InvalidFormat) <==> s == 400,
            (*self == ErrorCode::ServiceUnavailable || *self == ErrorCode::ConnectionPoolExhausted) <==> s == 503,
            *self == ErrorCode::Timeout <==> s == 504,
            *self == ErrorCode::TooManyRequests <==> s == 429,
            (*self == ErrorCode::InternalError || *self == ErrorCode::DatabaseError) <==> s == 500,
    {
        match self {
            ErrorCode::Unauthorized | ErrorCode::InvalidToken | ErrorCode::TokenExpired => 401,
            ErrorCode::Forbidden => 403,
            ErrorCode::ValidationFailed | ErrorCode::InvalidInput | ErrorCode::MissingField
            | ErrorCode::InvalidRange | ErrorCode::InvalidFormat => 400,
            ErrorCode::EntityNotFound | ErrorCode::TenantNotFound | ErrorCode::TrajectoryNotFound
            | ErrorCode::ScopeNotFound | ErrorCode::ArtifactNotFound | ErrorCode::NoteNotFound
            | ErrorCode::AgentNotFound | ErrorCode::LockNotFound | ErrorCode::MessageNotFound
            | ErrorCode::ApiKeyNotFound | ErrorCode::WebhookNotFound => 404,
            ErrorCode::EntityAlreadyExists | ErrorCode::ConcurrentModification | ErrorCode::LockConflict
            | ErrorCode::LockExpired | ErrorCode::StateConflict => 409,
            ErrorCode::ServiceUnavailable | ErrorCode::ConnectionPoolExhausted => 503,
            ErrorCode::Timeout => 504,
            ErrorCode::TooManyRequests => 429,
            ErrorCode::InternalError | ErrorCode::DatabaseError => 500,
        }
    }

    /// Get a default message for this error code.
    pub fn default_message(&self) -> (m: &'static str)
        ensures
            m@ == default_message_of(*self),
    {
        match self {
            ErrorCode::Unauthorized => "Authentication required",
            ErrorCode::Forbidden => "Access forbidden",
            ErrorCode::InvalidToken => "Invalid authentication token",
            ErrorCode::TokenExpired => "Authentication token has expired",
            ErrorCode::ValidationFailed => "Request validation failed",
            ErrorCode::InvalidInput => "Invalid input data",
            ErrorCode::MissingField => "Required field is missing",
            ErrorCode::InvalidRange => "Value is out of valid range",
            ErrorCode::InvalidFormat => "Invalid format",
            ErrorCode::EntityNotFound => "Entity not found",
            ErrorCode::TenantNotFound => "Tenant not found",
            ErrorCode::TrajectoryNotFound => "Trajectory not found",
            ErrorCode::ScopeNotFound => "Scope not found",
            ErrorCode::ArtifactNotFound => "Artifact not found",
            ErrorCode::NoteNotFound => "Note not found",
            ErrorCode::AgentNotFound => "Agent not found",
            ErrorCode::LockNotFound => "Lock not found",
            ErrorCode::MessageNotFound => "Message not found",
            ErrorCode::ApiKeyNotFound => "API key not found",
            ErrorCode::WebhookNotFound => "Webhook not found",
            ErrorCode::EntityAlreadyExists => "Entity already exists",
            ErrorCode::ConcurrentModification => "Concurrent modification detected",
            ErrorCode::LockConflict => "Resource is locked by another agent",
            ErrorCode::LockExpired => "Lock has expired",
            ErrorCode::StateConflict => "Operation conflicts with current state",
            ErrorCode::InternalError => "Internal server error",
            ErrorCode::DatabaseError => "Database operation failed",
            ErrorCode::ServiceUnavailable => "Service temporarily unavailable",
            ErrorCode::ConnectionPoolExhausted => "Connection pool exhausted",
            ErrorCode::Timeout => "Operation timed out",
            ErrorCode::TooManyRequests => "Rate limit exceeded",
        }
    }

    /// The name of the code, as `Display` shows it.
    pub fn name(&self) -> (m: &'static str)
        ensures
            m@ == code_name(*self),
    {
        match self {
            ErrorCode::Unauthorized => "Unauthorized",
            ErrorCode::Forbidden => "Forbidden",
            ErrorCode::InvalidToken => "InvalidToken",
            ErrorCode::TokenExpired => "TokenExpired",
            ErrorCode::ValidationFailed => "ValidationFailed",
            ErrorCode::InvalidInput => "InvalidInput",
            ErrorCode::MissingField => "MissingField",
            ErrorCode::InvalidRange => "InvalidRange",
            ErrorCode::InvalidFormat => "InvalidFormat",
            ErrorCode::EntityNotFound => "EntityNotFound",
            ErrorCode::TenantNotFound => "TenantNotFound",
            ErrorCode::TrajectoryNotFound => "TrajectoryNotFound",
            ErrorCode::ScopeNotFound => "ScopeNotFound",
            ErrorCode::ArtifactNotFound => "ArtifactNotFound",
            ErrorCode::NoteNotFound => "NoteNotFound",
            ErrorCode::AgentNotFound => "AgentNotFound",
            ErrorCode::LockNotFound => "LockNotFound",
            ErrorCode::MessageNotFound => "MessageNotFound",
            ErrorCode::ApiKeyNotFound => "ApiKeyNotFound",
            ErrorCode::WebhookNotFound => "WebhookNotFound",
            ErrorCode::EntityAlreadyExists => "EntityAlreadyExists",
            ErrorCode::ConcurrentModification => "ConcurrentModification",
            ErrorCode::LockConflict => "LockConflict",
            ErrorCode::LockExpired => "LockExpired",
            ErrorCode::StateConflict => "StateConflict",
            ErrorCode::InternalError => "InternalError",
            ErrorCode::DatabaseError => "DatabaseError",
            ErrorCode::ServiceUnavailable => "ServiceUnavailable",
            ErrorCode::ConnectionPoolExhausted => "ConnectionPoolExhausted",
            ErrorCode::Timeout => "Timeout",
            ErrorCode::TooManyRequests => "TooManyRequests",
        }
    }
}

/// Structured error response for API operations.
#[derive(Debug, Clone, PartialEq)]
pub struct ApiError {
    /// Error code categorizing the error
    pub code: ErrorCode,
    /// Human-readable error message
    pub message: String,
    /// Optional additional details (field errors, etc.)
    pub details: Option<serde_json::Value>,
}

/// Result type alias for API operations.
pub type ApiResult<T> = Result<T, ApiError>;

/// An error with this code and message and no details.
pub open spec fn plain_error(e: ApiError, code: ErrorCode, message: Seq<char>) -> bool {
    &&& e.code == code
    &&& e.message@ == message
    &&& e.details is None
}

fn concat3(a: &str, b: &str, c: &str) -> (s: String)
    ensures
        s@ == a@ + b@ + c@,
{
    let mut s = owned(a);
    push_str(&mut s, b);
    push_str(&mut s, c);
    s
}

fn concat4(a: &str, b: &str, c: &str, d: &str) -> (s: String)
    ensures
        s@ == a@ + b@ + c@ + d@,
{
    let mut s = concat3(a, b, c);
    push_str(&mut s, d);
    s
}

impl ApiError {
    /// Create a new API error with the given code and message.
    pub fn new(code: ErrorCode, message: &str) -> (e: Self)
        ensures
            plain_error(e, code, message@),
    {
        ApiError { code, message: owned(message), details: None }
    }

    /// Create a new API error with the given code, using the default message.
    pub fn from_code(code: ErrorCode) -> (e: Self)
        ensures
            plain_error(e, code, default_message_of(code)),
    {
        ApiError { code, message: owned(code.default_message()), details: None }
    }

    /// Add additional details to the error.
    pub fn with_details(self, details: serde_json::Value) -> (e: Self)
        ensures
            e == (ApiError { details: Some(details), ..self }),
    {
        ApiError { details: Some(details), ..self }
    }

    /// Get the HTTP status code for this error.
    pub fn status_code(&self) -> (s: u16)
        ensures
            s == status_of(self.code),
    {
        self.code.status_code()
    }

    /// The text `Display` shows: the code's name, a colon and a space, and the message.
    pub fn display_text(&self) -> (s: String)
        ensures
            s@ == code_name(self.code) + ": "@ + self.message@,
    {
        concat3(self.code.name(), ": ", self.message.as_str())
    }

    /// Create an Unauthorized error.
    pub fn unauthorized(message: &str) -> (e: Self)
        ensures
            plain_error(e, ErrorCode::Unauthorized, message@),
    {
        Self::new(ErrorCode::Unauthorized, message)
    }

    /// Create a Forbidden error.
    pub fn forbidden(message: &str) -> (e: Self)
        ensures
            plain_error(e, ErrorCode::Forbidden, message@),
    {
        Self::new(ErrorCode::Forbidden, message)
    }

    /// Create an InvalidToken error.
    pub fn invalid_token(message: &str) -> (e: Self)
        ensures
            plain_error(e, ErrorCode::InvalidToken, message@),
    {
        Self::new(ErrorCode::InvalidToken, message)
    }

    /// Create a TokenExpired error.
    pub fn token_expired() -> (e: Self)
        ensures
            plain_error(e, ErrorCode::TokenExpired, default_message_of(ErrorCode::TokenExpired)),
    {
        Self::from_code(ErrorCode::TokenExpired)
    }

    /// Create a ValidationFailed error.
    pub fn validation_failed(message: &str) -> (e: Self)
        ensures
            plain_error(e, ErrorCode::ValidationFailed, message@),
    {
        Self::new(ErrorCode::ValidationFailed, message)
    }

    /// Create an InvalidInput error.
    pub fn invalid_input(message: &str) -> (e: Self)
        ensures
            plain_error(e, ErrorCode::InvalidInput, message@),
    {
        Self::new(ErrorCode::InvalidInput, message)
    }

    /// Create a MissingField error.
    pub fn missing_field(field: &str) -> (e: Self)
        ensures
            plain_error(e, ErrorCode::MissingField, "Required field '"@ + field@ + "' is missing"@),
    {
        ApiError { code: ErrorCode::MissingField, message: concat3("Required field '", field, "' is missing"), details: None }
    }

    /// Create an InvalidRange error.
    pub fn invalid_range(field: &str, min: &str, max: &str) -> (e: Self)
        ensures
            plain_error(e, ErrorCode::InvalidRange,
                "Field '"@ + field@ + "' must be between "@ + min@ + " and "@ + max@),
    {
        let mut m = concat4("Field '", field, "' must be between ", min);
        push_str(&mut m, " and ");
        push_str(&mut m, max);
        ApiError { code: ErrorCode::InvalidRange, message: m, details: None }
    }

    /// Create an InvalidFormat error.
    pub fn invalid_format(field: &str, expected: &str) -> (e: Self)
        ensures
            plain_error(e, ErrorCode::InvalidFormat,
                "Field '"@ + field@ + "' has invalid format, expected "@ + expected@),
    {
        let mut m = concat3("Field '", field, "' has invalid format, expected ");
        push_str(&mut m, expected);
        ApiError { code: ErrorCode::InvalidFormat, message: m, details: None }
    }

    /// Create an EntityNotFound error.
    pub fn entity_not_found(entity_type: &str, id: &str) -> (e: Self)
        ensures
            plain_error(e, ErrorCode::EntityNotFound, entity_type@ + " with id "@ + id@ + " not found"@),
    {
        ApiError { code: ErrorCode::EntityNotFound, message: concat4(entity_type, " with id ", id, " not found"), details: None }
    }

    /// Create a generic not found error with custom message.
    pub fn not_found(message: &str) -> (e: Self)
        ensures
            plain_error(e, ErrorCode::EntityNotFound, message@),
    {
        Self::new(ErrorCode::EntityNotFound, message)
    }

    /// Create a TenantNotFound error.
    pub fn tenant_not_found(tenant_id: &str) -> (e: Self)
        ensures
            plain_error(e, ErrorCode::TenantNotFound, "Tenant "@ + tenant_id@ + " not found"@),
    {
        ApiError { code: ErrorCode::TenantNotFound, message: concat3("Tenant ", tenant_id, " not found"), details: None }
    }

    /// Create a TrajectoryNotFound error.
    pub fn trajectory_not_found(trajectory_id: &str) -> (e: Self)
        ensures
            plain_error(e, ErrorCode::TrajectoryNotFound, "Trajectory "@ + trajectory_id@ + " not found"@),
    {
        ApiError { code: ErrorCode::TrajectoryNotFound, message: concat3("Trajectory ", trajectory_id, " not found"), details: None }
    }

    /// Create a ScopeNotFound error.
    pub fn scope_not_found(scope_id: &str) -> (e: Self)
        ensures
            plain_error(e, ErrorCode::ScopeNotFound, "Scope "@ + scope_id@ + " not found"@),
    {
        ApiError { code: ErrorCode::ScopeNotFound, message: concat3("Scope ", scope_id, " not found"), details: None }
    }

    /// Create an ArtifactNotFound error.
    pub fn artifact_not_found(artifact_id: &str) -> (e: Self)
        ensures
            plain_error(e, ErrorCode::ArtifactNotFound, "Artifact "@ + artifact_id@ + " not found"@),
    {
        ApiError { code: ErrorCode::ArtifactNotFound, message: concat3("Artifact ", artifact_id, " not found"), details: None }
    }

    /// Create a NoteNotFound error.
    pub fn note_not_found(note_id: &str) -> (e: Self)
        ensures
            plain_error(e, ErrorCode::NoteNotFound, "Note "@ + note_id@ + " not found"@),
    {
        ApiError { code: ErrorCode::NoteNotFound, message: concat3("Note ", note_id, " not found"), details: None }
    }

    /// Create an AgentNotFound error.
    pub fn agent_not_found(agent_id: &str) -> (e: Self)
        ensures
            plain_error(e, ErrorCode::AgentNotFound, "Agent "@ + agent_id@ + " not found"@),
    {
        ApiError { code: ErrorCode::AgentNotFound, message: concat3("Agent ", agent_id, " not found"), details: None }
    }

    /// Create a LockNotFound error.
    pub fn lock_not_found(lock_id: &str) -> (e: Self)
        ensures
            plain_error(e, ErrorCode::LockNotFound, "Lock "@ + lock_id@ + " not found"@),
    {
        ApiError { code: ErrorCode::LockNotFound, message: concat3("Lock ", lock_id, " not found"), details: None }
    }

    /// Create a MessageNotFound error.
    pub fn message_not_found(message_id: &str) -> (e: Self)
        ensures
            plain_error(e, ErrorCode::MessageNotFound, "Message "@ + message_id@ + " not found"@),
    {
        ApiError { code: ErrorCode::MessageNotFound, message: concat3("Message ", message_id, " not found"), details: None }
    }

    /// Create an ApiKeyNotFound error.
    pub fn api_key_not_found(api_key_id: &str) -> (e: Self)
        ensures
            plain_error(e, ErrorCode::ApiKeyNotFound, "API key "@ + api_key_id@ + " not found"@),
    {
        ApiError { code: ErrorCode::ApiKeyNotFound, message: concat3("API key ", api_key_id, " not found"), details: None }
    }

    /// Create a WebhookNotFound error.
    pub fn webhook_not_found(webhook_id: &str) -> (e: Self)
        ensures
            plain_error(e, ErrorCode::WebhookNotFound, "Webhook "@ + webhook_id@ + " not found"@),
    {
        ApiError { code: ErrorCode::WebhookNotFound, message: concat3("Webhook ", webhook_id, " not found"), details: None }
    }

    /// Create an EntityAlreadyExists error.
    pub fn entity_already_exists(entity_type: &str, id: &str) -> (e: Self)
        ensures
            plain_error(e, ErrorCode::EntityAlreadyExists, entity_type@ + " with id "@ + id@ + " already exists"@),
    {
        ApiError { code: ErrorCode::EntityAlreadyExists, message: concat4(entity_type, " with id ", id, " already exists"), details: None }
    }

    /// Create a ConcurrentModification error.
    pub fn concurrent_modification(entity_type: &str, id: &str) -> (e: Self)
        ensures
            plain_error(e, ErrorCode::ConcurrentModification,
                entity_type@ + " "@ + id@ + " was modified by another request"@),
    {
        ApiError { code: ErrorCode::ConcurrentModification, message: concat4(entity_type, " ", id, " was modified by another request"), details: None }
    }

    /// Create a LockConflict error.
    pub fn lock_conflict(resource_type: &str, resource_id: &str) -> (e: Self)
        ensures
            plain_error(e, ErrorCode::LockConflict,
                resource_type@ + " "@ + resource_id@ + " is locked by another agent"@),
    {
        ApiError { code: ErrorCode::LockConflict, message: concat4(resource_type, " ", resource_id, " is locked by another agent"), details: None }
    }

    /// Create a LockExpired error.
    pub fn lock_expired(lock_id: &str) -> (e: Self)
        ensures
            plain_error(e, ErrorCode::LockExpired, "Lock "@ + lock_id@ + " has expired"@),
    {
        ApiError { code: ErrorCode::LockExpired, message: concat3("Lock ", lock_id, " has expired"), details: None }
    }

    /// Create a StateConflict error.
    pub fn state_conflict(message: &str) -> (e: Self)
        ensures
            plain_error(e, ErrorCode::StateConflict, message@),
    {
        Self::new(ErrorCode::StateConflict, message)
    }

    /// Create an InternalError.
    pub fn internal_error(message: &str) -> (e: Self)
        ensures
            plain_error(e, ErrorCode::InternalError, message@),
    {
        Self::new(ErrorCode::InternalError, message)
    }

    /// Create a DatabaseError.
    pub fn database_error(message: &str) -> (e: Self)
        ensures
            plain_error(e, ErrorCode::DatabaseError, message@),
    {
        Self::new(ErrorCode::DatabaseError, message)
    }

    /// Create a ServiceUnavailable error.
    pub fn service_unavailable(message: &str) -> (e: Self)
        ensures
            plain_error(e, ErrorCode::ServiceUnavailable, message@),
    {
        Self::new(ErrorCode::ServiceUnavailable, message)
    }

    /// Create a ConnectionPoolExhausted error.
    pub fn connection_pool_exhausted() -> (e: Self)
        ensures
            plain_error(e, ErrorCode::ConnectionPoolExhausted, default_message_of(ErrorCode::ConnectionPoolExhausted)),
    {
        Self::from_code(ErrorCode::ConnectionPoolExhausted)
    }

    /// Create a Timeout error.
    pub fn timeout(operation: &str) -> (e: Self)
        ensures
            plain_error(e, ErrorCode::Timeout, "Operation '"@ + operation@ + "' timed out"@),
    {
        ApiError { code: ErrorCode::Timeout, message: concat3("Operation '", operation, "' timed out"), details: None }
    }

    /// Create a TooManyRequests error, telling when to retry if that is known.
    pub fn too_many_requests(retry_after_secs: Option<u64>) -> (e: Self)
        ensures
            plain_error(e, ErrorCode::TooManyRequests, match retry_after_secs {
                Some(secs) => "Rate limit exceeded. Retry after "@ + decimal_text(secs as nat) + " seconds"@,
                None => "Rate limit exceeded"@,
            }),
    {
        let message = match retry_after_secs {
            Some(secs) => {
                let n = u64_to_string(secs);
                concat3("Rate limit exceeded. Retry after ", n.as_str(), " seconds")
            },
            None => owned("Rate limit exceeded"),
        };
        ApiError { code: ErrorCode::TooManyRequests, message, details: None }
    }
}

/// Every error code maps to an HTTP error status: a client error (4xx) for
/// every code caused by the request, a server error (5xx) otherwise.
pub proof fn lemma_status_is_error(code: ErrorCode)
    ensures
        400 <= status_of(code) <= 599,
        status_of(code) < 500 <==> !(code == ErrorCode::InternalError || code == ErrorCode::DatabaseError
            || code == ErrorCode::ServiceUnavailable || code == ErrorCode::ConnectionPoolExhausted
            || code == ErrorCode::Timeout),
{
}

/// The HTTP status of each class of error codes, and of no other code:
/// 401 for missing, invalid or expired credentials; 403 for a forbidden
/// request; 400 for every validation failure; 404 for every missing entity;
/// 409 for every conflict (an entity that already exists, a concurrent
/// modification, a lock conflict, an expired lock, a state conflict); 503
/// when the service or its connection pool is unavailable; 504 on a timeout;
/// 429 when rate limited; 500 for internal and database errors.
pub proof fn lemma_status_by_class(code: ErrorCode)
    ensures
        status_of(code) == 401 <==> (code == ErrorCode::Unauthorized || code == ErrorCode::InvalidToken
            || code == ErrorCode::TokenExpired),
        status_of(code) == 403 <==> code == ErrorCode::Forbidden,
        status_of(code) == 400 <==> (code == ErrorCode::ValidationFailed || code == ErrorCode::InvalidInput
            || code == ErrorCode::MissingField || code == ErrorCode::InvalidRange
            || code == ErrorCode::InvalidFormat),
        status_of(code) == 404 <==> (code == ErrorCode::EntityNotFound || code == ErrorCode::TenantNotFound
            || code == ErrorCode::TrajectoryNotFound || code == ErrorCode::ScopeNotFound
            || code == ErrorCode::ArtifactNotFound || code == ErrorCode::NoteNotFound
            || code == ErrorCode::AgentNotFound || code == ErrorCode::LockNotFound
            || code == ErrorCode::MessageNotFound || code == ErrorCode::ApiKeyNotFound
            || code == ErrorCode::WebhookNotFound),
        status_of(code) == 409 <==> (code == ErrorCode::EntityAlreadyExists
            || code == ErrorCode::ConcurrentModification || code == ErrorCode::LockConflict
            || code == ErrorCode::LockExpired || code == ErrorCode::StateConflict),
        status_of(code) == 503 <==> (code == ErrorCode::ServiceUnavailable
            || code == ErrorCode::ConnectionPoolExhausted),
        status_of(code) == 504 <==> code == ErrorCode::Timeout,
        status_of(code) == 429 <==> code == ErrorCode::TooManyRequests,
        status_of(code) == 500 <==> (code == ErrorCode::InternalError || code == ErrorCode::DatabaseError),
{
}

} // verus!
