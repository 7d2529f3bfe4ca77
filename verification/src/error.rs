//! The ways in which a call can fail.

use crate::io_error::io_error_text;
use crate::io_error::io_error_to_string;
use vstd::prelude::*;
use vstd::string::StringExecFns;

verus! {

/// Why a call was abandoned. Every one of these ends the call and none is retried.
#[derive(Debug)]
pub enum TransportError {
    /// The stream failed: a timeout, a broken pipe or another I/O failure.
    IoError(std::io::Error),
    /// More bytes were accumulated than the configuration allows and still no
    /// response was complete.
    ExceededMaxBufferSize,
    /// More rounds passed without a complete response than the configuration allows.
    ExceededMaxParseAttempts,
    /// The handler rejected the bytes it was shown.
    ParseStructuralError(std::io::Error),
}

impl TransportError {
    /// The message of this error.
    pub open spec fn text(self) -> Seq<char> {
        match self {
            TransportError::IoError(error) => io_error_text(error),
            TransportError::ExceededMaxBufferSize => "Reach max buffer size"@,
            TransportError::ExceededMaxParseAttempts => "Reach max parse response bytes count"@,
            TransportError::ParseStructuralError(error) => io_error_text(error),
        }
    }

    /// The message of this error: that of the I/O error inside, or a fixed sentence
    /// for each of the two limits.
    pub fn to_string(&self) -> (text: String)
        ensures
            text@ == self.text(),
    {
        match self {
            TransportError::IoError(error) => io_error_to_string(error),
            TransportError::ExceededMaxBufferSize => String::from_str("Reach max buffer size"),
            TransportError::ExceededMaxParseAttempts => String::from_str(
                "Reach max parse response bytes count",
            ),
            TransportError::ParseStructuralError(error) => io_error_to_string(error),
        }
    }
}

} // verus!
