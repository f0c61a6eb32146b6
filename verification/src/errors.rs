//! The error taxonomy of the supervisor and the gateway, with the
//! user-visible message text each error is surfaced as.

use vstd::prelude::*;
use vstd::string::StringExecFns;

verus! {

/// Every failure the core can surface. None is fatal: each is
/// recoverable by the caller.
#[derive(Debug)]
pub enum RappError {
    /// No candidate entry-point path for the engine exists.
    EngineNotFound,
    /// OS-level process creation failed, with the OS error text.
    SpawnFailed(String),
    /// A transport-level failure during a gateway call, with the
    /// client's error text.
    ConnectFailed(String),
    /// The engine responded with a non-success HTTP status.
    EngineError(u16),
    /// The engine's response body was not well-formed, with the
    /// parser's error text.
    DecodeFailed(String),
}

/// The message text an error is surfaced as.
pub open spec fn error_message_spec(e: RappError) -> Seq<char> {
    match e {
        RappError::EngineNotFound => "RAPP OS not found. Please install RAPP OS first."@,
        RappError::SpawnFailed(t) => "Failed to start RAPP OS: "@ + t@,
        RappError::ConnectFailed(t) => "Failed to connect to RAPP OS: "@ + t@,
        RappError::EngineError(status) => "RAPP OS error: "@ + crate::text::dec_spec(status as nat),
        RappError::DecodeFailed(t) => "Failed to parse response: "@ + t@,
    }
}

impl RappError {
    /// Renders the user-visible message for this error.
    pub fn message(&self) -> (r: String)
        ensures
            r@ == error_message_spec(*self),
    {
        match self {
            RappError::EngineNotFound => String::from_str(
                "RAPP OS not found. Please install RAPP OS first.",
            ),
            RappError::SpawnFailed(t) => {
                let mut m = String::from_str("Failed to start RAPP OS: ");
                m.append(t.as_str());
                m
            },
            RappError::ConnectFailed(t) => {
                let mut m = String::from_str("Failed to connect to RAPP OS: ");
                m.append(t.as_str());
                m
            },
            RappError::EngineError(status) => {
                let mut m = String::from_str("RAPP OS error: ");
                let d = crate::text::dec_str_u16(*status);
                m.append(d.as_str());
                m
            },
            RappError::DecodeFailed(t) => {
                let mut m = String::from_str("Failed to parse response: ");
                m.append(t.as_str());
                m
            },
        }
    }
}

} // verus!
