//! The unified error taxonomy: a closed set of kinds, each carrying enough
//! structured context to render one human-readable message for the envelope.

use vstd::prelude::*;
use crate::strutil::{dec_seq, u64_to_string};

verus! {

/// Every failure a handler can produce, as a tagged variant.
pub enum Error {
    /// The target execution context is absent from the registry.
    WindowNotFound { label: String },
    /// A context-level action (reload, capture, emit) failed.
    WindowOperationFailed { operation: String, reason: String, context: Option<String> },
    /// Payload validation failed.
    InvalidParameter { param: String, expected: String, received: String },
    /// The correlation bridge deadline elapsed.
    TimeoutError { operation: String, duration_ms: u64 },
    /// Payload decode or encode failure.
    SerializationError { message: String },
    /// Publishing to the execution context failed.
    CommunicationError { message: String, context: Option<String> },
    /// Fallback wrapping of any lower-level failure.
    Generic { message: String },
}

impl Error {
    /// Creates a `WindowNotFound` error carrying the label that was looked up.
    pub fn window_not_found(label: String) -> (r: Error)
        ensures
            r == (Error::WindowNotFound { label }),
    {
        Error::WindowNotFound { label }
    }

    /// Creates a `WindowOperationFailed` error with operation and reason.
    pub fn window_operation_failed(operation: String, reason: String) -> (r: Error)
        ensures
            r == (Error::WindowOperationFailed { operation, reason, context: None }),
    {
        Error::WindowOperationFailed { operation, reason, context: None }
    }

    /// Creates a `WindowOperationFailed` error with operation, reason and context.
    pub fn window_operation_failed_with_context(
        operation: String,
        reason: String,
        context: String,
    ) -> (r: Error)
        ensures
            r == (Error::WindowOperationFailed { operation, reason, context: Some(context) }),
    {
        Error::WindowOperationFailed { operation, reason, context: Some(context) }
    }

    /// Creates an `InvalidParameter` error.
    pub fn invalid_parameter(param: String, expected: String, received: String) -> (r: Error)
        ensures
            r == (Error::InvalidParameter { param, expected, received }),
    {
        Error::InvalidParameter { param, expected, received }
    }

    /// Creates a `TimeoutError`.
    pub fn timeout_error(operation: String, duration_ms: u64) -> (r: Error)
        ensures
            r == (Error::TimeoutError { operation, duration_ms }),
    {
        Error::TimeoutError { operation, duration_ms }
    }

    /// Creates a `SerializationError`.
    pub fn serialization_error(message: String) -> (r: Error)
        ensures
            r == (Error::SerializationError { message }),
    {
        Error::SerializationError { message }
    }

    /// Creates a `CommunicationError`.
    pub fn communication_error(message: String) -> (r: Error)
        ensures
            r == (Error::CommunicationError { message, context: None }),
    {
        Error::CommunicationError { message, context: None }
    }

    /// Creates a `CommunicationError` with context.
    pub fn communication_error_with_context(message: String, context: String) -> (r: Error)
        ensures
            r == (Error::CommunicationError { message, context: Some(context) }),
    {
        Error::CommunicationError { message, context: Some(context) }
    }

    /// Creates a `Generic` error.
    pub fn generic(message: String) -> (r: Error)
        ensures
            r == (Error::Generic { message }),
    {
        Error::Generic { message }
    }

    /// The single human-readable rendering of this error.
    pub open spec fn spec_message(&self) -> Seq<char> {
        match self {
            Error::WindowNotFound { label } => "Window not found: "@ + label@,
            Error::WindowOperationFailed { operation, reason, context: _ } => "Window operation failed: "@
                + operation@ + " - "@ + reason@,
            Error::InvalidParameter { param, expected, received } => "Invalid parameter '"@
                + param@ + "': expected "@ + expected@ + ", got "@ + received@,
            Error::TimeoutError { operation, duration_ms } => "Operation timed out: "@
                + operation@ + " (exceeded "@ + dec_seq(*duration_ms as nat) + "ms)"@,
            Error::SerializationError { message } => "Serialization error: "@ + message@,
            Error::CommunicationError { message, context: _ } => "Communication error: "@
                + message@,
            Error::Generic { message } => message@,
        }
    }

    /// Renders this error as one message string.
    pub fn message(&self) -> (r: String)
        ensures
            r@ == self.spec_message(),
    {
        match self {
            Error::WindowNotFound { label } => {
                let mut s = String::from_str("Window not found: ");
                s.append(label.as_str());
                s
            },
            Error::WindowOperationFailed { operation, reason, context: _ } => {
                let mut s = String::from_str("Window operation failed: ");
                s.append(operation.as_str());
                s.append(" - ");
                s.append(reason.as_str());
                proof {
                    assert(s@ =~= self.spec_message());
                }
                s
            },
            Error::InvalidParameter { param, expected, received } => {
                let mut s = String::from_str("Invalid parameter '");
                s.append(param.as_str());
                s.append("': expected ");
                s.append(expected.as_str());
                s.append(", got ");
                s.append(received.as_str());
                proof {
                    assert(s@ =~= self.spec_message());
                }
                s
            },
            Error::TimeoutError { operation, duration_ms } => {
                let mut s = String::from_str("Operation timed out: ");
                s.append(operation.as_str());
                s.append(" (exceeded ");
                let d = u64_to_string(*duration_ms);
                s.append(d.as_str());
                s.append("ms)");
                proof {
                    assert(s@ =~= self.spec_message());
                }
                s
            },
            Error::SerializationError { message } => {
                let mut s = String::from_str("Serialization error: ");
                s.append(message.as_str());
                s
            },
            Error::CommunicationError { message, context: _ } => {
                let mut s = String::from_str("Communication error: ");
                s.append(message.as_str());
                s
            },
            Error::Generic { message } => message.clone(),
        }
    }
}

} // verus!
