//! The errors of a streaming parse session.
use vstd::prelude::*;

verus! {

/// Why an update of a parse session failed.
#[derive(Debug)]
pub enum ChatParseError {
    /// The text holds a NUL byte, at this position among its UTF-8 bytes, so it
    /// cannot be handed over as a C string.
    NulError {
        /// Position of the first NUL byte.
        position: usize,
    },
    /// The native library returned text that is not UTF-8.
    Utf8Error(std::string::FromUtf8Error),
    /// The native library failed with this status code.
    FfiError(i32),
    /// The native library reported success and returned a null pointer.
    NullResult,
    /// A delta is not the JSON of a chat message delta.
    JsonError(serde_json::Error),
}

impl From<serde_json::Error> for ChatParseError {
    fn from(error: serde_json::Error) -> (r: Self)
        ensures
            r == ChatParseError::JsonError(error),
    {
        ChatParseError::JsonError(error)
    }
}

impl vstd::std_specs::convert::FromSpecImpl<serde_json::Error> for ChatParseError {
    open spec fn obeys_from_spec() -> bool {
        true
    }

    open spec fn from_spec(error: serde_json::Error) -> Self {
        ChatParseError::JsonError(error)
    }
}

impl From<std::string::FromUtf8Error> for ChatParseError {
    fn from(error: std::string::FromUtf8Error) -> (r: Self)
        ensures
            r == ChatParseError::Utf8Error(error),
    {
        ChatParseError::Utf8Error(error)
    }
}

impl vstd::std_specs::convert::FromSpecImpl<std::string::FromUtf8Error> for ChatParseError {
    open spec fn obeys_from_spec() -> bool {
        true
    }

    open spec fn from_spec(error: std::string::FromUtf8Error) -> Self {
        ChatParseError::Utf8Error(error)
    }
}

} // verus!
