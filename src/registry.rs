use vstd::prelude::*;
use crate::error::LlmError;

verus! {

/// Seconds to wait after asking the service to install a model before
/// checking for it again.
pub const PULL_GRACE_SECS: u64 = 2;

/// Whether `name` is among `names`.
pub open spec fn lists(names: Seq<String>, name: Seq<char>) -> bool {
    exists|i: int| 0 <= i < names.len() && #[trigger] names[i]@ == name
}

/// The model names of a decoded catalog, or the failure to decode it.
pub fn finish_catalog(decoded: Result<Vec<String>, String>) -> (r: Result<Vec<String>, LlmError>)
    ensures
        match decoded {
            Ok(names) => r == Ok::<Vec<String>, LlmError>(names),
            Err(m) => r == Err::<Vec<String>, LlmError>(LlmError::MalformedResponse(m)),
        },
{
    match decoded {
        Ok(names) => Ok(names),
        Err(m) => Err(LlmError::MalformedResponse(m)),
    }
}

fn contains_name(names: &Vec<String>, name: &str) -> (r: bool)
    ensures
        r == lists(names@, name@),
{
    let target = String::from_str(name);
    let mut i: usize = 0;
    while i < names.len()
        invariant
            i <= names@.len(),
            target@ == name@,
            forall|j: int| 0 <= j < i ==> names@[j]@ != name@,
        decreases names@.len() - i,
    {
        if names[i] == target {
            assert(names@[i as int]@ == name@);
            return true;
        }
        i = i + 1;
    }
    false
}

/// Whether the catalog lists `name`. Availability is advisory: a catalog that
/// could not be had counts as one that does not list it.
pub fn model_available(catalog: &Result<Vec<String>, LlmError>, name: &str) -> (r: bool)
    ensures
        r == (catalog matches Ok(names) && lists(names@, name@)),
{
    match catalog {
        Err(_) => false,
        Ok(names) => contains_name(names, name),
    }
}

/// What the caller of a model installation has just learned.
#[derive(Debug)]
pub enum PullEvent {
    /// Whether the model was listed before anything was installed.
    Checked(bool),
    /// How the service answered the installation request.
    InstallAnswered(Result<String, LlmError>),
    /// Whether the model is listed after the grace period.
    Rechecked(bool),
}

/// What the caller of a model installation does next.
#[derive(Debug, PartialEq, Eq)]
pub enum PullStep {
    /// Ask the service to install the model.
    Install,
    /// Wait `PULL_GRACE_SECS`, then check the catalog again.
    WaitThenRecheck,
    /// Stop with this outcome: whether the model is available, or the failure.
    Finish(Result<bool, LlmError>),
}

/// The decision after each event of a model installation: a model already
/// listed needs no call; a refused installation is a failure; otherwise the
/// outcome is whether the model is listed after the grace period.
pub fn pull_step(event: PullEvent) -> (r: PullStep)
    ensures
        match event {
            PullEvent::Checked(true) => r == PullStep::Finish(Ok(true)),
            PullEvent::Checked(false) => r == PullStep::Install,
            PullEvent::InstallAnswered(Ok(_)) => r == PullStep::WaitThenRecheck,
            PullEvent::InstallAnswered(Err(e)) => r == PullStep::Finish(Err(e)),
            PullEvent::Rechecked(b) => r == PullStep::Finish(Ok(b)),
        },
{
    match event {
        PullEvent::Checked(present) => if present {
            PullStep::Finish(Ok(true))
        } else {
            PullStep::Install
        },
        PullEvent::InstallAnswered(answer) => match answer {
            Ok(_) => PullStep::WaitThenRecheck,
            Err(e) => PullStep::Finish(Err(e)),
        },
        PullEvent::Rechecked(present) => PullStep::Finish(Ok(present)),
    }
}

} // verus!
