use command_strike::error::LlmError;
use command_strike::invoke::{check_reply, finish_generation, unread_reply, Reply};
use command_strike::registry::{finish_catalog, model_available, pull_step, PullEvent, PullStep};
use command_strike::wire::GenerationFrame;
use std::time::Duration;

#[test]
fn reply_success_gives_body() {
    let r = check_reply(Reply::Answered { success: true, body: "{}".to_string() });
    assert_eq!(r, Ok("{}".to_string()));
}

#[test]
fn reply_failure_status_is_service_error() {
    let r = check_reply(Reply::Answered { success: false, body: "model not found".to_string() });
    assert_eq!(r, Err(LlmError::ServiceError("model not found".to_string())));
}

#[test]
fn reply_unreachable_is_transport_error() {
    let r = check_reply(Reply::Unreachable("connection refused".to_string()));
    assert_eq!(r, Err(LlmError::TransportError("connection refused".to_string())));
}

#[test]
fn slow_transport_times_out() {
    let rt = tokio::runtime::Builder::new_current_thread().enable_time().build().unwrap();
    let timeout = Duration::from_millis(10);
    let delay = Duration::from_millis(30);
    let reply = rt.block_on(async {
        let slow = async {
            tokio::time::sleep(delay).await;
            Reply::Answered { success: true, body: "late".to_string() }
        };
        match tokio::time::timeout(timeout, slow).await {
            Ok(r) => r,
            Err(_) => Reply::TimedOut,
        }
    });
    assert_eq!(check_reply(reply), Err(LlmError::Timeout));
}

#[test]
fn generation_text_is_trimmed() {
    let f = GenerationFrame { model: "m".to_string(), response: "  nmap -sV host \n".to_string(), done: true };
    assert_eq!(finish_generation(Ok(f)), Ok("nmap -sV host".to_string()));
}

#[test]
fn undecodable_generation_is_malformed() {
    let r = finish_generation(Err("expected value".to_string()));
    assert_eq!(r, Err(LlmError::MalformedResponse("expected value".to_string())));
}

#[test]
fn validate_is_false_when_unreachable() {
    let catalog = check_reply(Reply::Unreachable("connection refused".to_string())).map(|_| Vec::new());
    assert!(!model_available(&catalog, "gemma3:12b"));
}

fn names_of(json: &str) -> Vec<String> {
    let v: serde_json::Value = serde_json::from_str(json).unwrap();
    v["models"]
        .as_array()
        .unwrap()
        .iter()
        .map(|m| m["name"].as_str().unwrap().to_string())
        .collect()
}

#[test]
fn validate_against_catalog() {
    let catalog = finish_catalog(Ok(names_of(r#"{"models":[{"name":"gemma3:12b"}]}"#)));
    assert!(model_available(&catalog, "gemma3:12b"));
    assert!(!model_available(&catalog, "llama3:8b"));
}

#[test]
fn validate_is_false_on_malformed_catalog() {
    let catalog = finish_catalog(Err("missing field `models`".to_string()));
    assert_eq!(catalog, Err(LlmError::MalformedResponse("missing field `models`".to_string())));
    assert!(!model_available(&catalog, "gemma3:12b"));
}

#[test]
fn validate_empty_catalog() {
    assert!(!model_available(&Ok(Vec::new()), ""));
}

#[test]
fn pull_decisions() {
    assert_eq!(pull_step(PullEvent::Checked(true)), PullStep::Finish(Ok(true)));
    assert_eq!(pull_step(PullEvent::Checked(false)), PullStep::Install);
    assert_eq!(pull_step(PullEvent::InstallAnswered(Ok(String::new()))), PullStep::WaitThenRecheck);
    assert_eq!(
        pull_step(PullEvent::InstallAnswered(Err(LlmError::ServiceError("no such model".to_string())))),
        PullStep::Finish(Err(LlmError::ServiceError("no such model".to_string())))
    );
    assert_eq!(pull_step(PullEvent::Rechecked(false)), PullStep::Finish(Ok(false)));
    assert_eq!(pull_step(PullEvent::Rechecked(true)), PullStep::Finish(Ok(true)));
}

#[test]
fn error_messages() {
    assert_eq!(LlmError::Timeout.message(), "request timed out");
    assert_eq!(LlmError::TransportError("x".to_string()).message(), "transport error: x");
    assert_eq!(LlmError::ServiceError("y".to_string()).message(), "service error: y");
    assert_eq!(LlmError::MalformedResponse("z".to_string()).message(), "malformed response: z");
}

#[test]
fn unreadable_failure_body_is_service_error() {
    let r = check_reply(unread_reply(false, "body cut".to_string()));
    assert_eq!(r, Err(LlmError::ServiceError("Unknown error".to_string())));
}

#[test]
fn unreadable_success_body_is_transport_error() {
    let r = check_reply(unread_reply(true, "body cut".to_string()));
    assert_eq!(r, Err(LlmError::TransportError("body cut".to_string())));
}
