use vstd::prelude::*;
use crate::controller::Outcome;

verus! {

/// What a single-shot run reports about how inference ended.
#[derive(Clone, Copy, Debug, PartialEq, Eq, Structural)]
pub enum RunNotice {
    /// A warning: the context window filled up and generation stopped.
    ContextFull,
    /// An error: the initial prompt could not be tokenized.
    TokenizationFailed,
}

/// How a single-shot run ends: what it reports, whether it succeeded, and
/// where the final session is written, if anywhere.
#[derive(Clone, Debug, PartialEq, Eq)]
pub struct RunReport {
    pub notice: Option<RunNotice>,
    pub success: bool,
    pub save_to: Option<String>,
}

/// The path a final session is written to: the explicit save path, else the
/// persistence path the session was read from.
pub open spec fn save_target(save_session: Option<String>, persist_session: Option<String>) -> Option<
    String,
> {
    if save_session is Some {
        save_session
    } else {
        persist_session
    }
}

/// Classifies how the one feed-and-generate cycle of a single-shot run ended.
/// A full context is a warning and the run still succeeds; a prompt that
/// could not be tokenized fails the run. Either way the final session is
/// saved when a save or persistence path is set.
pub fn conclude_inference(
    outcome: Outcome,
    save_session: Option<String>,
    persist_session: Option<String>,
) -> (r: RunReport)
    ensures
        r.success == (outcome != Outcome::TokenizationFailed),
        r.notice == (match outcome {
            Outcome::Completed => None,
            Outcome::ContextFull => Some(RunNotice::ContextFull),
            Outcome::TokenizationFailed => Some(RunNotice::TokenizationFailed),
        }),
        r.save_to == save_target(save_session, persist_session),
{
    let (notice, success) = match outcome {
        Outcome::Completed => (None, true),
        Outcome::ContextFull => (Some(RunNotice::ContextFull), true),
        Outcome::TokenizationFailed => (Some(RunNotice::TokenizationFailed), false),
    };
    let save_to = match save_session {
        Some(p) => Some(p),
        None => persist_session,
    };
    RunReport { notice, success, save_to }
}

} // verus!
