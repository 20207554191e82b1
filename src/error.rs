use vstd::prelude::*;
use vstd::string::StringExecFns;

verus! {

/// Failures of the service facade, one kind per distinct cause. Kinds that
/// come from the conductor or its key store carry the underlying cause as text.
#[derive(Debug, Clone, PartialEq, Eq)]
pub enum ServiceError {
    /// The persisted configuration document could not be parsed.
    ConfigParseError(String),
    /// The conductor failed to start; no handle exists.
    FatalStartError(String),
    /// An operation was attempted before start or after shutdown.
    ServiceNotInitialized,
    /// An install request carried no application id.
    MissingAppId,
    /// No application is installed under the given id.
    AppNotFound,
    /// The application has no cell under the requested name.
    CellNotFound,
    /// The addressed cell is a stem and cannot be called.
    CellNotProvisioned,
    /// The key store could not sign the call.
    SigningFailed(String),
    /// The key store holds no public key.
    NoKeysAvailable,
    /// The remote function raised an error.
    CallFailed(String),
    /// The conductor rejected the signed envelope or failed to carry it.
    CallRejected(String),
    /// A generic fault while talking to the conductor.
    TransportError(String),
    /// The operating system's random source failed to produce a nonce.
    NonceUnavailable,
    /// The system clock reads before the Unix epoch or beyond the representable range.
    ClockUnavailable,
    /// The call's expiry time cannot be represented.
    ExpiryOutOfRange,
}

/// Errors of the AI service.
#[derive(Debug, Clone, PartialEq, Eq)]
pub enum AIServiceError {
    DatabaseError(String),
    TaskNotFound,
    StreamNotFound,
    ServiceNotInitialized,
    LockError,
    CrazyError(String),
    ModelNotFound,
}

impl AIServiceError {
    /// The human-readable text of the error.
    pub open spec fn message_spec(&self) -> Seq<char> {
        match self {
            AIServiceError::DatabaseError(msg) => "Database error: "@ + msg@,
            AIServiceError::TaskNotFound => "Task not found"@,
            AIServiceError::StreamNotFound => "Transcription stream not found"@,
            AIServiceError::ServiceNotInitialized => "Service not initialized"@,
            AIServiceError::LockError => "Lock error"@,
            AIServiceError::CrazyError(msg) => "Something crazy happened: "@ + msg@,
            AIServiceError::ModelNotFound => "Model not found"@,
        }
    }

    /// Renders the error as text.
    pub fn message(&self) -> (r: String)
        ensures
            r@ == self.message_spec(),
    {
        match self {
            AIServiceError::DatabaseError(msg) => String::from_str("Database error: ").concat(
                msg.as_str(),
            ),
            AIServiceError::TaskNotFound => String::from_str("Task not found"),
            AIServiceError::StreamNotFound => String::from_str("Transcription stream not found"),
            AIServiceError::ServiceNotInitialized => String::from_str("Service not initialized"),
            AIServiceError::LockError => String::from_str("Lock error"),
            AIServiceError::CrazyError(msg) => String::from_str(
                "Something crazy happened: ",
            ).concat(msg.as_str()),
            AIServiceError::ModelNotFound => String::from_str("Model not found"),
        }
    }
}

} // verus!
