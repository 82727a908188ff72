//! What the dispatcher answers on each route.
//!
//! A capability call either comes back with a value or does not come back
//! with one: the provider is absent, the call fails, or the reply lacks
//! what was asked for. Every such case is turned into a failing result
//! with a fixed text, so that no fault leaves the dispatcher.

use crate::orchestrator::{AgentResult, Outcome};
use crate::routing::{kind_of, SubtaskKind};
use crate::text::join;
use vstd::prelude::*;

verus! {

/// Output after the dependencies were installed.
pub const DEPS_INSTALLED: &'static str = "Deps installed";

/// Output after the installer could not be run or reported a failure.
pub const DEPS_FAILED: &'static str = "Dep Install Err";

/// Output after the language model gave no text.
pub const LLM_FAILED: &'static str = "LLM Err";

/// What stands before the version-control actor's message.
pub const GIT_LABEL: &'static str = "Git: ";

/// Output after the version-control actor gave no usable reply.
pub const GIT_FAILED: &'static str = "Git Err";

/// Output for a subtask that no route takes.
pub const UNKNOWN_TASK: &'static str = "Unknown task";

/// What was read from the version-control actor's reply. A field is `None`
/// where the reply lacks it or holds a value of another type.
#[derive(Debug)]
pub struct GitReply {
    /// The reply's `success`, where it is a boolean.
    pub success: Option<bool>,
    /// The reply's `message`, where it is a string.
    pub message: Option<String>,
}

/// A `GitReply` as plain values.
pub struct GitReplyView {
    pub success: Option<bool>,
    pub message: Option<Seq<char>>,
}

impl View for GitReply {
    type V = GitReplyView;

    open spec fn view(&self) -> GitReplyView {
        GitReplyView {
            success: self.success,
            message: match self.message {
                Some(text) => Some(text@),
                None => None,
            },
        }
    }
}

/// A language-model or debug-agent reply as plain values.
pub open spec fn reply_view(reply: Option<String>) -> Option<Seq<char>> {
    match reply {
        Some(text) => Some(text@),
        None => None,
    }
}

/// A version-control reply as plain values.
pub open spec fn git_reply_view(reply: Option<GitReply>) -> Option<GitReplyView> {
    match reply {
        Some(fields) => Some(fields@),
        None => None,
    }
}

/// Whether the installer's command ended well: the shell was run and
/// gave the exit status 0. `None` stands for a shell that was not run.
pub open spec fn installed(status: Option<i64>) -> bool {
    status == Some(0i64)
}

/// Result of the dependency check, by the exit status of the installer's
/// command.
pub open spec fn install_outcome(status: Option<i64>) -> Outcome {
    if installed(status) {
        Outcome { output: DEPS_INSTALLED@, status: true }
    } else {
        Outcome { output: DEPS_FAILED@, status: false }
    }
}

/// Result of a language-model query, by the model's reply.
pub open spec fn llm_outcome(reply: Option<Seq<char>>) -> Outcome {
    match reply {
        Some(text) => Outcome { output: text, status: true },
        None => Outcome { output: LLM_FAILED@, status: false },
    }
}

/// Whether a version-control reply holds both fields.
pub open spec fn well_formed(reply: Option<GitReplyView>) -> bool {
    reply is Some && reply->0.success is Some && reply->0.message is Some
}

/// Result of a version-control action, by the actor's reply.
pub open spec fn git_outcome(reply: Option<GitReplyView>) -> Outcome {
    if well_formed(reply) {
        Outcome { output: GIT_LABEL@ + reply->0.message->0, status: reply->0.success->0 }
    } else {
        Outcome { output: GIT_FAILED@, status: false }
    }
}

/// Result for a subtask that no route takes.
pub open spec fn unknown_outcome() -> Outcome {
    Outcome { output: UNKNOWN_TASK@, status: false }
}

/// Whether `result` is an answer that the dispatcher can give to
/// `sub_task`: the result of the subtask's route for some reply of the
/// capability behind it.
pub open spec fn dispatch_admits(sub_task: Seq<char>, result: Outcome) -> bool {
    match kind_of(sub_task) {
        SubtaskKind::InstallDeps => exists|status: Option<i64>| result == install_outcome(status),
        SubtaskKind::LlmQuery => exists|reply: Option<Seq<char>>| result == llm_outcome(reply),
        SubtaskKind::VersionControl => exists|reply: Option<GitReplyView>|
            result == git_outcome(reply),
        SubtaskKind::Unknown => result == unknown_outcome(),
    }
}

/// The result of the dependency check; `status` is the exit status of
/// the installer's command, `None` where the shell was not run.
pub fn install_result(status: Option<i64>) -> (result: AgentResult)
    ensures
        result@ == install_outcome(status),
{
    let done = match status {
        Some(code) => code == 0,
        None => false,
    };
    if done {
        AgentResult { output: DEPS_INSTALLED.to_owned(), status: true }
    } else {
        AgentResult { output: DEPS_FAILED.to_owned(), status: false }
    }
}

/// The result of a language-model query; `None` stands for a call that
/// gave no text.
pub fn llm_result(reply: Option<String>) -> (result: AgentResult)
    ensures
        result@ == llm_outcome(reply_view(reply)),
{
    match reply {
        Some(text) => AgentResult { output: text, status: true },
        None => AgentResult { output: LLM_FAILED.to_owned(), status: false },
    }
}

/// The result of a version-control action; `None` stands for a call that
/// gave no reply.
pub fn git_result(reply: Option<GitReply>) -> (result: AgentResult)
    ensures
        result@ == git_outcome(git_reply_view(reply)),
{
    match reply {
        Some(GitReply { success: Some(success), message: Some(message) }) => AgentResult {
            output: join(GIT_LABEL, message.as_str()),
            status: success,
        },
        _ => AgentResult { output: GIT_FAILED.to_owned(), status: false },
    }
}

/// The result for a subtask that no route takes.
pub fn unknown_result() -> (result: AgentResult)
    ensures
        result@ == unknown_outcome(),
{
    AgentResult { output: UNKNOWN_TASK.to_owned(), status: false }
}

} // verus!
