use vstd::prelude::*;
use vstd::string::StringExecFns;

verus! {

/// Why a relay call failed.
#[derive(Debug, Clone)]
pub enum RelayError {
    /// A request header name is not a legal header name.
    InvalidHeaderName { name: String, reason: String },
    /// The value of the named request header is not a legal header value.
    InvalidHeaderValue { name: String, reason: String },
    /// The request header collection could not take the named header.
    TooManyHeaders { name: String },
    /// The request could not be sent or no response came back.
    Transport { reason: String },
    /// The response came back but its body could not be read as text.
    BodyRead { reason: String },
}

impl RelayError {
    /// The text handed back to the caller for this error.
    pub open spec fn message_spec(&self) -> Seq<char> {
        match self {
            RelayError::InvalidHeaderName { name, reason } =>
                "invalid header name `"@ + name@ + "`: "@ + reason@,
            RelayError::InvalidHeaderValue { name, reason } =>
                "invalid header value for `"@ + name@ + "`: "@ + reason@,
            RelayError::TooManyHeaders { name } =>
                "too many headers to add `"@ + name@ + "`"@,
            RelayError::Transport { reason } => "request failed: "@ + reason@,
            RelayError::BodyRead { reason } => "failed to read response body: "@ + reason@,
        }
    }

    /// The text handed back to the caller for this error.
    pub fn message(&self) -> (r: String)
        ensures
            r@ == self.message_spec(),
    {
        match self {
            RelayError::InvalidHeaderName { name, reason } => {
                String::from_str("invalid header name `").concat(name.as_str()).concat(
                    "`: ",
                ).concat(reason.as_str())
            },
            RelayError::InvalidHeaderValue { name, reason } => {
                String::from_str("invalid header value for `").concat(name.as_str()).concat(
                    "`: ",
                ).concat(reason.as_str())
            },
            RelayError::TooManyHeaders { name } => {
                String::from_str("too many headers to add `").concat(name.as_str()).concat("`")
            },
            RelayError::Transport { reason } => {
                String::from_str("request failed: ").concat(reason.as_str())
            },
            RelayError::BodyRead { reason } => {
                String::from_str("failed to read response body: ").concat(reason.as_str())
            },
        }
    }
}

} // verus!
