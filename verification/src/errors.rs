//! Error taxonomy for tool calls.

use vstd::prelude::*;

verus! {

/// Why a tool call failed.
///
/// - `Validation`: a caller-supplied parameter broke a declared bound; no
///   remote call was made.
/// - `AuthState`: no authenticated identity was available when one was
///   required.
/// - `Upstream`: a remote service call failed; the message describes the
///   underlying cause.
/// - `Serialization`: a response could not be converted to the structured
///   content model of the dispatcher.
#[derive(Debug, PartialEq, Eq)]
pub enum ToolError {
    Validation(String),
    AuthState,
    Upstream(String),
    Serialization(String),
}

impl ToolError {
    /// A human-readable description of the failure.
    pub fn message(&self) -> (m: String)
        ensures
            m@ == self.message_spec(),
    {
        match self {
            ToolError::Validation(s) => String::from_str("invalid parameter: ").concat(s.as_str()),
            ToolError::AuthState => String::from_str("no authenticated identity"),
            ToolError::Upstream(s) => String::from_str("upstream request failed: ").concat(s.as_str()),
            ToolError::Serialization(s) => String::from_str("serialization failed: ").concat(s.as_str()),
        }
    }

    /// What `message` returns for each kind of failure.
    pub open spec fn message_spec(&self) -> Seq<char> {
        match self {
            ToolError::Validation(s) => "invalid parameter: "@ + s@,
            ToolError::AuthState => "no authenticated identity"@,
            ToolError::Upstream(s) => "upstream request failed: "@ + s@,
            ToolError::Serialization(s) => "serialization failed: "@ + s@,
        }
    }
}

} // verus!
