use vstd::prelude::*;

verus! {

/// Why a call to the generation service failed.
#[derive(Debug, Clone, PartialEq, Eq)]
pub enum LlmError {
    /// The call did not complete within the configured time.
    Timeout,
    /// The connection could not be made or was interrupted.
    TransportError(String),
    /// The service answered with a failure status; carries its body.
    ServiceError(String),
    /// The answer could not be decoded into the expected shape.
    MalformedResponse(String),
}

impl LlmError {
    /// A one-line description of the failure.
    pub fn message(&self) -> (r: String)
        ensures
            match self {
                LlmError::Timeout => r@ == "request timed out"@,
                LlmError::TransportError(m) => r@ == "transport error: "@ + m@,
                LlmError::ServiceError(m) => r@ == "service error: "@ + m@,
                LlmError::MalformedResponse(m) => r@ == "malformed response: "@ + m@,
            },
    {
        match self {
            LlmError::Timeout => String::from_str("request timed out"),
            LlmError::TransportError(m) => {
                let mut r = String::from_str("transport error: ");
                r.append(m.as_str());
                r
            },
            LlmError::ServiceError(m) => {
                let mut r = String::from_str("service error: ");
                r.append(m.as_str());
                r
            },
            LlmError::MalformedResponse(m) => {
                let mut r = String::from_str("malformed response: ");
                r.append(m.as_str());
                r
            },
        }
    }
}

} // verus!
