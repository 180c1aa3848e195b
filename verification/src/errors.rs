//! Error taxonomy of the one-shot workflow.
//!
//! Every stage of the workflow either succeeds or stops the run: the caller
//! maps any of these errors to an abnormal exit with a diagnostic line.

use vstd::prelude::*;

verus! {

/// Why the credential text could not be turned into a `Secret`.
#[derive(Clone, Copy, Debug, PartialEq, Eq, Structural)]
pub enum ConfigReason {
    /// The credential file could not be opened or read.
    UnreadableFile,
    /// The credential text is not valid JSON.
    InvalidJson,
    /// The JSON lacks `client_id` or `client_secret` as a string member.
    MissingOrMistypedField,
}

/// The failure of one stage of the workflow. None of them is recovered:
/// the run stops at the first one.
#[derive(Clone, Copy, Debug, PartialEq, Eq, Structural)]
pub enum RunError {
    /// The credential file was missing, unreadable or malformed.
    ConfigError(ConfigReason),
    /// The token exchange failed.
    AuthError,
    /// The stream query failed.
    RequestError,
    /// The stream query succeeded but returned no record.
    DataError,
}

/// The diagnostic line that a run stopped by `e` prints.
pub open spec fn spec_message(e: RunError) -> Seq<char> {
    match e {
        RunError::ConfigError(ConfigReason::UnreadableFile) => "Failed to load secret: unreadable file"@,
        RunError::ConfigError(ConfigReason::InvalidJson) => "Failed to load secret: invalid JSON"@,
        RunError::ConfigError(ConfigReason::MissingOrMistypedField) => "Failed to load secret: missing or mistyped field"@,
        RunError::AuthError => "App access token error"@,
        RunError::RequestError => "Helix request error"@,
        RunError::DataError => "No stream record found"@,
    }
}

impl RunError {
    /// The diagnostic line for this error.
    pub fn message(&self) -> (s: String)
        ensures
            s@ == spec_message(*self),
    {
        match self {
            RunError::ConfigError(ConfigReason::UnreadableFile) => {
                String::from_str("Failed to load secret: unreadable file")
            },
            RunError::ConfigError(ConfigReason::InvalidJson) => {
                String::from_str("Failed to load secret: invalid JSON")
            },
            RunError::ConfigError(ConfigReason::MissingOrMistypedField) => {
                String::from_str("Failed to load secret: missing or mistyped field")
            },
            RunError::AuthError => String::from_str("App access token error"),
            RunError::RequestError => String::from_str("Helix request error"),
            RunError::DataError => String::from_str("No stream record found"),
        }
    }
}

} // verus!
