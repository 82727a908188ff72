//! The subtask vocabulary and the routing policy of the dispatcher.
//!
//! A subtask is a plain string. Which capability answers it is decided by
//! three tests, tried in a fixed order: an exact match, a prefix match and
//! an infix match on the version-control markers. The order is part of the
//! policy: a subtask that passes several tests belongs to the first.

use crate::text::{has_infix, has_prefix, includes, remove_all, same_text, starts_with, strip_all};
use vstd::prelude::*;

verus! {

/// Subtask that asks for the dependencies to be installed.
pub const INSTALL_SENTINEL: &'static str = "check_install_deps";

/// Shell command that the dependency installer is given.
pub const INSTALL_COMMAND: &'static str = "pip install -r requirements.txt";

/// A subtask that begins with this is a query for the language model.
pub const LLM_PREFIX: &'static str = "query llm";

/// What is taken out of a language-model query to obtain the prompt.
pub const LLM_STRIP: &'static str = "query llm ";

/// A subtask that holds this is an action for the version-control actor.
pub const VCS_MARKER: &'static str = "git";

/// A subtask that holds this stages files, which the version-control
/// actor does.
pub const VCS_MARKER_ADD: &'static str = "add_initial_files";

/// A subtask that holds this records a change, which the version-control
/// actor does.
pub const VCS_MARKER_COMMIT: &'static str = "commit";

/// The capability that a subtask is routed to.
#[derive(Clone, Copy, Debug, PartialEq, Eq, Structural)]
pub enum SubtaskKind {
    /// The dependency installer.
    InstallDeps,
    /// The language model.
    LlmQuery,
    /// The version-control actor.
    VersionControl,
    /// No capability: the subtask is answered with a failure at once.
    Unknown,
}

/// Whether the subtask holds one of the version-control markers.
pub open spec fn names_version_control(sub_task: Seq<char>) -> bool {
    has_infix(sub_task, VCS_MARKER@) || has_infix(sub_task, VCS_MARKER_ADD@) || has_infix(
        sub_task,
        VCS_MARKER_COMMIT@,
    )
}

/// The routing policy: the first test that the subtask passes decides.
pub open spec fn kind_of(sub_task: Seq<char>) -> SubtaskKind {
    if sub_task == INSTALL_SENTINEL@ {
        SubtaskKind::InstallDeps
    } else if has_prefix(sub_task, LLM_PREFIX@) {
        SubtaskKind::LlmQuery
    } else if names_version_control(sub_task) {
        SubtaskKind::VersionControl
    } else {
        SubtaskKind::Unknown
    }
}

/// The prompt of a language-model query: the subtask without its marker,
/// wherever the marker stands.
pub open spec fn prompt_of(sub_task: Seq<char>) -> Seq<char> {
    strip_all(sub_task, LLM_STRIP@)
}

/// Routes a subtask.
pub fn classify(sub_task: &str) -> (kind: SubtaskKind)
    ensures
        kind == kind_of(sub_task@),
{
    if same_text(sub_task, INSTALL_SENTINEL) {
        SubtaskKind::InstallDeps
    } else if starts_with(sub_task, LLM_PREFIX) {
        SubtaskKind::LlmQuery
    } else if includes(sub_task, VCS_MARKER) || includes(sub_task, VCS_MARKER_ADD) || includes(
        sub_task,
        VCS_MARKER_COMMIT,
    ) {
        SubtaskKind::VersionControl
    } else {
        SubtaskKind::Unknown
    }
}

/// The prompt that a language-model query hands to the model.
pub fn llm_prompt(sub_task: &str) -> (prompt: String)
    ensures
        prompt@ == prompt_of(sub_task@),
{
    remove_all(sub_task, LLM_STRIP)
}

} // verus!
