use vstd::prelude::*;
use crate::error::LlmError;
use crate::text::{trim, trim_text};
use crate::wire::GenerationFrame;

verus! {

/// What the transport made of one HTTP call.
#[derive(Debug, Clone)]
pub enum Reply {
    /// No answer came within the time allowed.
    TimedOut,
    /// The connection failed; carries the reason.
    Unreachable(String),
    /// The service answered, with a success status or not, and this body.
    Answered { success: bool, body: String },
}

/// The body of a successful answer, or the failure the reply stands for.
pub fn check_reply(reply: Reply) -> (r: Result<String, LlmError>)
    ensures
        match reply {
            Reply::TimedOut => r == Err::<String, LlmError>(LlmError::Timeout),
            Reply::Unreachable(m) => r == Err::<String, LlmError>(LlmError::TransportError(m)),
            Reply::Answered { success, body } => if success {
                r == Ok::<String, LlmError>(body)
            } else {
                r == Err::<String, LlmError>(LlmError::ServiceError(body))
            },
        },
{
    match reply {
        Reply::TimedOut => Err(LlmError::Timeout),
        Reply::Unreachable(m) => Err(LlmError::TransportError(m)),
        Reply::Answered { success, body } => if success {
            Ok(body)
        } else {
            Err(LlmError::ServiceError(body))
        },
    }
}

/// The reply for an answer whose body could not be read: with a failure
/// status it is still the service's refusal, with a stand-in body; with a
/// success status the connection is at fault.
pub fn unread_reply(success: bool, reason: String) -> (r: Reply)
    ensures
        success ==> r == Reply::Unreachable(reason),
        !success ==> (r matches Reply::Answered { success: false, body } && body@
            == "Unknown error"@),
{
    if success {
        Reply::Unreachable(reason)
    } else {
        Reply::Answered { success: false, body: String::from_str("Unknown error") }
    }
}

/// The text of a synchronous generation, trimmed, once its body has been
/// decoded (or failed to decode, with the decoder's message).
pub fn finish_generation(decoded: Result<GenerationFrame, String>) -> (r: Result<
    String,
    LlmError,
>)
    ensures
        match decoded {
            Ok(f) => r matches Ok(t) && t@ == trim(f.response@),
            Err(m) => r == Err::<String, LlmError>(LlmError::MalformedResponse(m)),
        },
{
    match decoded {
        Ok(f) => Ok(trim_text(f.response.as_str())),
        Err(m) => Err(LlmError::MalformedResponse(m)),
    }
}

} // verus!
