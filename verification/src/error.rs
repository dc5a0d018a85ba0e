//! The error taxonomy: file open, parse, and pattern-not-found failures.

use vstd::prelude::*;
use vstd::string::StringExecFns;

verus! {

/// Everything that can go wrong in one invocation: opening a file, parsing
/// its text, or resolving a pattern. Each failure is terminal and carries
/// what its one-line diagnostic needs.
#[derive(Debug)]
pub enum ToError {
    FileOpenError { file_name: String, cause: String },
    TomlParseError { file_name: String, cause: String },
    PatternNotFoundError { pattern: String },
}

impl ToError {
    /// The one-line diagnostic this error renders to.
    pub open spec fn spec_message(self) -> Seq<char> {
        match self {
            ToError::FileOpenError { file_name, cause } => "Failed to open file \""@
                + file_name@ + "\": "@ + cause@,
            ToError::TomlParseError { file_name, cause } => "Failed to parse TOML file \""@
                + file_name@ + "\": "@ + cause@,
            ToError::PatternNotFoundError { pattern } => "Could not find pattern "@ + pattern@,
        }
    }

    /// Renders the diagnostic, e.g. `Could not find pattern package.test2`.
    pub fn message(&self) -> (r: String)
        ensures
            r@ == self.spec_message(),
    {
        match self {
            ToError::FileOpenError { file_name, cause } => {
                let mut s = String::from_str("Failed to open file \"");
                s.append(file_name.as_str());
                s.append("\": ");
                s.append(cause.as_str());
                s
            },
            ToError::TomlParseError { file_name, cause } => {
                let mut s = String::from_str("Failed to parse TOML file \"");
                s.append(file_name.as_str());
                s.append("\": ");
                s.append(cause.as_str());
                s
            },
            ToError::PatternNotFoundError { pattern } => {
                let mut s = String::from_str("Could not find pattern ");
                s.append(pattern.as_str());
                s
            },
        }
    }
}

} // verus!
