//! The calls that leave the library: the capability providers, which live
//! in the embedded Python interpreter, the JSON encoder and the clock.
//!
//! Nothing here is proved. Each function holds one call and says in its
//! contract only what the called code lets it say.
//!
//! A provider is reached with pyo3: `Python::try_attach` takes the
//! interpreter for the length of the call, `Python::import`, `getattr` and
//! `call0` make the provider, `call_method1` calls it and `extract` reads
//! the answer. What a provider answers depends on what the interpreter has
//! loaded, so nothing is promised of it: `None` (or `false`) stands alike
//! for an interpreter that was not started, a provider that is absent, a
//! call that raised and an answer of the wrong type. `try_attach` gives
//! nothing where `Python::attach` would panic, and every step behind it
//! hands a Python exception back as a value. One exception is not handed
//! back: where a provider raises pyo3's own `PanicException`, which stands
//! for a panic in Rust code that the provider called, pyo3 resumes that
//! panic here.

use crate::outcome::GitReply;
use crate::text::texts;
use pyo3::types::{PyAnyMethods, PyDict, PyDictMethods};
use pyo3::{PyResult, Python};
use vstd::prelude::*;

verus! {

/// The JSON text of an array of strings, as `serde_json::to_string` writes
/// it for a `Vec<String>`.
pub uninterp spec fn json_array_of(items: Seq<Seq<char>>) -> Seq<char>;

/// `serde_json::to_string` on a vector of strings. The encoder fails only
/// where a `Serialize` impl fails or a map has a key that is no string;
/// neither can happen here, so the text is always the encoding.
#[verifier::external_body]
pub(crate) fn encode_json(items: &Vec<String>) -> (encoded: String)
    ensures
        encoded@ == json_array_of(texts(items@)),
{
    serde_json::to_string(items).unwrap_or_default()
}

/// `chrono::Utc::now().to_rfc3339()`: the current time. Nothing is
/// promised of the text, which differs from call to call. `Utc::now`
/// panics on a machine whose clock stands before 1970; no argument of
/// this function has a part in that.
#[verifier::external_body]
pub(crate) fn utc_now_rfc3339() -> (stamp: String) {
    chrono::Utc::now().to_rfc3339()
}

/// The planner: `PlannerAgent().decompose(command)` of the module
/// `python.agents.planner_agent`, read as a list of strings.
#[verifier::external_body]
pub(crate) fn decompose(command: &str) -> (tasks: Option<Vec<String>>) {
    Python::try_attach(|py| -> PyResult<Vec<String>> {
        let agent = py.import("python.agents.planner_agent")?.getattr("PlannerAgent")?.call0()?;
        Ok(agent.call_method1("decompose", (command,))?.extract::<Vec<String>>()?)
    })?.ok()
}

/// The memory store: `QdrantMemory().store_context(message, context_id,
/// {key: value})` of the module `python.memory`. Whether the record was
/// taken is not reported.
#[verifier::external_body]
pub(crate) fn store_context(message: &str, context_id: &str, key: &str, value: &str) {
    let _ = Python::try_attach(|py| -> PyResult<()> {
        let memory = py.import("python.memory")?.getattr("QdrantMemory")?.call0()?;
        let payload = PyDict::new(py);
        payload.set_item(key, value)?;
        memory.call_method1("store_context", (message, context_id, payload))?;
        Ok(())
    });
}

/// The debug agent: `DebugAgent().re_plan(strategy, context_id)` of the
/// module `python.agents.debug_agent`, read as a string.
#[verifier::external_body]
pub(crate) fn re_plan(strategy: &str, context_id: &str) -> (plan: Option<String>) {
    Python::try_attach(|py| -> PyResult<String> {
        let agent = py.import("python.agents.debug_agent")?.getattr("DebugAgent")?.call0()?;
        Ok(agent.call_method1("re_plan", (strategy, context_id))?.extract::<String>()?)
    })?.ok()
}

/// The language model: `LLMAgent().generate(prompt)` of the module
/// `python.agents.llm_agent`, read as a string.
#[verifier::external_body]
pub(crate) fn generate(prompt: &str) -> (text: Option<String>) {
    Python::try_attach(|py| -> PyResult<String> {
        let agent = py.import("python.agents.llm_agent")?.getattr("LLMAgent")?.call0()?;
        Ok(agent.call_method1("generate", (prompt,))?.extract::<String>()?)
    })?.ok()
}

/// The version-control actor: `GitAgent().execute_git_action(sub_task)` of
/// the module `python.agents.git_agent`. Of the reply the items `success`
/// and `message` are read, each `None` where the reply has no such item or
/// the item is no boolean, or no string.
#[verifier::external_body]
pub(crate) fn execute_git_action(sub_task: &str) -> (reply: Option<GitReply>) {
    Python::try_attach(|py| -> PyResult<GitReply> {
        let agent = py.import("python.agents.git_agent")?.getattr("GitAgent")?.call0()?;
        let reply = agent.call_method1("execute_git_action", (sub_task,))?;
        let success = reply.get_item("success").ok().and_then(|v| v.extract::<bool>().ok());
        let message = reply.get_item("message").ok().and_then(|v| v.extract::<String>().ok());
        Ok(GitReply { success, message })
    })?.ok()
}

/// The dependency installer: `os.system(command)`, read as an integer:
/// the exit status that the shell gave for the command.
#[verifier::external_body]
pub(crate) fn run_shell(command: &str) -> (status: Option<i64>) {
    Python::try_attach(|py| -> PyResult<i64> {
        Ok(py.import("os")?.call_method1("system", (command,))?.extract::<i64>()?)
    })?.ok()
}

} // verus!
