//! Error types of the protocol library.

use vstd::prelude::*;
use crate::text::concat2;

verus! {

/// Errors of MCP operations.
#[derive(Debug, Clone)]
pub enum MCPError {
    /// A message could not be serialized.
    Serialization(String),
    /// A message could not be deserialized.
    Deserialization(String),
    /// The transport failed.
    Transport(String),
    /// The peer broke the protocol, or a request could not be served.
    Protocol(String),
    /// The operation is not supported.
    UnsupportedFeature(String),
    /// An operation did not finish in time.
    Timeout(String),
}

/// The mathematical form of an [`MCPError`]: which error, and its detail.
pub enum ErrorView {
    Serialization(Seq<char>),
    Deserialization(Seq<char>),
    Transport(Seq<char>),
    Protocol(Seq<char>),
    UnsupportedFeature(Seq<char>),
    Timeout(Seq<char>),
}

impl View for MCPError {
    type V = ErrorView;

    open spec fn view(&self) -> ErrorView {
        match self {
            MCPError::Serialization(m) => ErrorView::Serialization(m@),
            MCPError::Deserialization(m) => ErrorView::Deserialization(m@),
            MCPError::Transport(m) => ErrorView::Transport(m@),
            MCPError::Protocol(m) => ErrorView::Protocol(m@),
            MCPError::UnsupportedFeature(m) => ErrorView::UnsupportedFeature(m@),
            MCPError::Timeout(m) => ErrorView::Timeout(m@),
        }
    }
}

impl MCPError {
    /// The message that the error displays.
    pub open spec fn display(&self) -> Seq<char> {
        match self {
            MCPError::Serialization(m) => "JSON serialization error: "@ + m@,
            MCPError::Deserialization(m) => "JSON deserialization error: "@ + m@,
            MCPError::Transport(m) => "Transport error: "@ + m@,
            MCPError::Protocol(m) => "Protocol error: "@ + m@,
            MCPError::UnsupportedFeature(m) => "Unsupported feature: "@ + m@,
            MCPError::Timeout(m) => "Timeout error: "@ + m@,
        }
    }

    /// The message that the error displays: its kind, then its detail.
    pub fn to_string(&self) -> (res: String)
        ensures
            res@ == self.display(),
    {
        match self {
            MCPError::Serialization(m) => concat2("JSON serialization error: ", m.as_str()),
            MCPError::Deserialization(m) => concat2("JSON deserialization error: ", m.as_str()),
            MCPError::Transport(m) => concat2("Transport error: ", m.as_str()),
            MCPError::Protocol(m) => concat2("Protocol error: ", m.as_str()),
            MCPError::UnsupportedFeature(m) => concat2("Unsupported feature: ", m.as_str()),
            MCPError::Timeout(m) => concat2("Timeout error: ", m.as_str()),
        }
    }
}

/// Errors of the project generator.
#[derive(Debug, Clone)]
pub enum GeneratorError {
    /// A file system operation failed; the text is the I/O error's message.
    Io(String),
    /// No template fits the request.
    Template(String),
    /// A name is not a valid crate name.
    InvalidName(String),
}

impl GeneratorError {
    /// The message that the error displays.
    pub open spec fn display(&self) -> Seq<char> {
        match self {
            GeneratorError::Io(m) => "IO error: "@ + m@,
            GeneratorError::Template(m) => "Template error: "@ + m@,
            GeneratorError::InvalidName(m) => "Invalid name: "@ + m@,
        }
    }

    /// The message that the error displays: its kind, then its detail.
    pub fn to_string(&self) -> (res: String)
        ensures
            res@ == self.display(),
    {
        match self {
            GeneratorError::Io(m) => concat2("IO error: ", m.as_str()),
            GeneratorError::Template(m) => concat2("Template error: ", m.as_str()),
            GeneratorError::InvalidName(m) => concat2("Invalid name: ", m.as_str()),
        }
    }
}

} // verus!
