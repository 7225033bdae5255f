//! Errors that stop a walk before it starts.

use vstd::prelude::*;
use vstd::string::StringExecFns;

verus! {

/// A fault in the configuration, found before any node is loaded.
#[derive(Clone, Debug, PartialEq, Eq)]
pub enum ConfigError {
    /// A name that is no node kind.
    UnknownNodeType(String),
    /// A name that is no edge kind.
    UnknownEdgeType(String),
    /// A sample rate of zero: "one node in none".
    ZeroSampleRate,
    /// A path pattern that is no regular expression.
    InvalidPathPattern(String),
}

/// What a [`ConfigError`] is in contracts.
pub enum ConfigFault {
    UnknownNodeType(Seq<char>),
    UnknownEdgeType(Seq<char>),
    ZeroSampleRate,
    InvalidPathPattern(Seq<char>),
}

impl View for ConfigError {
    type V = ConfigFault;

    open spec fn view(&self) -> ConfigFault {
        match *self {
            ConfigError::UnknownNodeType(s) => ConfigFault::UnknownNodeType(s@),
            ConfigError::UnknownEdgeType(s) => ConfigFault::UnknownEdgeType(s@),
            ConfigError::ZeroSampleRate => ConfigFault::ZeroSampleRate,
            ConfigError::InvalidPathPattern(s) => ConfigFault::InvalidPathPattern(s@),
        }
    }
}

impl ConfigFault {
    /// The text shown for the fault.
    pub open spec fn message(self) -> Seq<char> {
        match self {
            ConfigFault::UnknownNodeType(s) => "Unknown NodeType "@ + s,
            ConfigFault::UnknownEdgeType(s) => "Unknown EdgeType "@ + s,
            ConfigFault::ZeroSampleRate => "sample rate must be at least 1"@,
            ConfigFault::InvalidPathPattern(s) => "Invalid path pattern "@ + s,
        }
    }
}

impl ConfigError {
    /// The text shown for the error.
    pub fn message(&self) -> (text: String)
        ensures
            text@ == self@.message(),
    {
        match self {
            ConfigError::UnknownNodeType(s) => String::from_str("Unknown NodeType ").concat(
                s.as_str(),
            ),
            ConfigError::UnknownEdgeType(s) => String::from_str("Unknown EdgeType ").concat(
                s.as_str(),
            ),
            ConfigError::ZeroSampleRate => String::from_str("sample rate must be at least 1"),
            ConfigError::InvalidPathPattern(s) => String::from_str("Invalid path pattern ").concat(
                s.as_str(),
            ),
        }
    }
}

} // verus!
