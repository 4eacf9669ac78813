//! The error type shared by the library's fallible operations.

use vstd::prelude::*;

verus! {

/// One failure category per way an operation can go wrong: remote API
/// failures, authentication problems, configuration trouble, transport and
/// file-system errors (carried as plain messages), serialization failures,
/// a missing credential, an unreadable server reply, and a catch-all.
#[derive(Debug)]
pub enum CliError {
    Api(String),
    Auth(String),
    Config(String),
    Network(String),
    Io(String),
    Serialization(String),
    NotAuthenticated,
    InvalidResponse,
    Other(String),
}

/// The message that `CliError::message` renders for a given error value.
pub open spec fn error_message_spec(e: CliError) -> Seq<char> {
    match e {
        CliError::Api(s) => "API error: "@ + s@,
        CliError::Auth(s) => "Authentication error: "@ + s@,
        CliError::Config(s) => "Configuration error: "@ + s@,
        CliError::Network(s) => "Network error: "@ + s@,
        CliError::Io(s) => "IO error: "@ + s@,
        CliError::Serialization(s) => "Serialization error: "@ + s@,
        CliError::NotAuthenticated => "Not authenticated. Please run 'zere login' first"@,
        CliError::InvalidResponse => "Invalid response from server"@,
        CliError::Other(s) => s@,
    }
}

impl CliError {
    /// A human-readable description of the error.
    pub fn message(&self) -> (r: String)
        ensures
            r@ == error_message_spec(*self),
    {
        match self {
            CliError::Api(s) => String::from_str("API error: ").concat(s.as_str()),
            CliError::Auth(s) => String::from_str("Authentication error: ").concat(s.as_str()),
            CliError::Config(s) => String::from_str("Configuration error: ").concat(s.as_str()),
            CliError::Network(s) => String::from_str("Network error: ").concat(s.as_str()),
            CliError::Io(s) => String::from_str("IO error: ").concat(s.as_str()),
            CliError::Serialization(s) => String::from_str("Serialization error: ").concat(
                s.as_str(),
            ),
            CliError::NotAuthenticated => String::from_str(
                "Not authenticated. Please run 'zere login' first",
            ),
            CliError::InvalidResponse => String::from_str("Invalid response from server"),
            CliError::Other(s) => s.clone(),
        }
    }
}

} // verus!
