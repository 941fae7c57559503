//! The ways in which a request fails.

use vstd::prelude::*;
use vstd::string::*;

verus! {

/// Why a request gave no result. Every failure ends the one request it
/// belongs to, and nothing else.
#[derive(Clone, Debug, PartialEq, Eq)]
pub enum CodecError {
    /// Fewer than two tokens were given.
    Usage,
    /// The command is neither `encode` nor `decode`; holds the name given.
    UnknownCommand(String),
    /// The scheme is not one of the five; holds the name given.
    UnsupportedFormat(String),
    /// The compressor reported a failure; holds its words.
    EncodeError(String),
    /// The input has not the form that the scheme reads; holds the cause.
    DecodeError(String),
}

impl CodecError {
    /// The words in which the failure is reported.
    pub open spec fn spec_message(self) -> Seq<char> {
        match self {
            CodecError::Usage => "Usage: <format> <text>"@,
            CodecError::UnknownCommand(name) => "Unknown command: "@ + name@,
            CodecError::UnsupportedFormat(_) => "Unsupported format"@,
            CodecError::EncodeError(cause) => cause@,
            CodecError::DecodeError(cause) => cause@,
        }
    }

    /// The failure in words.
    pub fn message(&self) -> (r: String)
        ensures
            r@ == self.spec_message(),
    {
        match self {
            CodecError::Usage => "Usage: <format> <text>".to_owned(),
            CodecError::UnknownCommand(name) => {
                let mut text = "Unknown command: ".to_owned();
                text.append(name.as_str());
                text
            },
            CodecError::UnsupportedFormat(_) => "Unsupported format".to_owned(),
            CodecError::EncodeError(cause) => cause.clone(),
            CodecError::DecodeError(cause) => cause.clone(),
        }
    }
}

} // verus!
