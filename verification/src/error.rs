//! The top-level error type of the engine.

use vstd::prelude::*;

verus! {

/// The top-level error type for the agent engine.
#[derive(Clone, Debug, PartialEq, Eq)]
pub enum AiError {
    /// The backend reported a failure that is not retried; carries its text.
    RequestError(String),
    /// A required argument for a tool call is missing.
    MissingArgument(String),
    /// An argument or a persisted record could not be read as its type.
    ParseError(String),
    /// The agent is already running.
    AlreadyRunning,
    /// A tool failed to execute.
    ToolFailed(String),
}

impl AiError {
    /// A human-readable description, analogous to what a `Display`
    /// implementation would print.
    pub fn text(&self) -> (r: String)
        ensures
            r@ == self.text_spec(),
    {
        match self {
            AiError::RequestError(msg) => {
                let mut s = String::new();
                s.append("request failed: ");
                s.append(msg.as_str());
                s
            },
            AiError::MissingArgument(name) => {
                let mut s = String::new();
                s.append("tool call is missing argument `");
                s.append(name.as_str());
                s.append("`");
                s
            },
            AiError::ParseError(msg) => {
                let mut s = String::new();
                s.append("malformed value: ");
                s.append(msg.as_str());
                s
            },
            AiError::AlreadyRunning => String::from_str("the agent is already running"),
            AiError::ToolFailed(msg) => {
                let mut s = String::new();
                s.append(msg.as_str());
                s
            },
        }
    }

    /// What `text` returns, as a sequence of characters.
    pub open spec fn text_spec(&self) -> Seq<char> {
        match self {
            AiError::RequestError(msg) => "request failed: "@ + msg@,
            AiError::MissingArgument(name) => "tool call is missing argument `"@ + name@ + "`"@,
            AiError::ParseError(msg) => "malformed value: "@ + msg@,
            AiError::AlreadyRunning => "the agent is already running"@,
            AiError::ToolFailed(msg) => msg@,
        }
    }
}

} // verus!
