// Every test in this file starts the interpreter and loads stand-ins for
// the capability providers, so the calls of the library reach real Python
// code. The stand-ins answer by what they are asked, which keeps the tests
// apart from each other.

use axion_core::orchestrator::{output_log, AgentResult, CognitiveOrchestrator, Step};
use pyo3::types::PyAnyMethods;
use pyo3::{PyResult, Python};
use std::collections::HashMap;

fn strings(items: &[&str]) -> Vec<String> {
    items.iter().map(|s| s.to_string()).collect()
}

fn dispatched(trace: &[Step]) -> Vec<String> {
    trace.iter().map(|step| step.sub_task.clone()).collect()
}

fn providers() -> CognitiveOrchestrator {
    Python::initialize();
    let loaded = Python::attach(|py| {
        py.run(
            c"
import os, sys, types

state = types.ModuleType('axion_stand_ins')
state.records = []
state.shell = []
state = sys.modules.setdefault('axion_stand_ins', state)

def _shell(command):
    sys.modules['axion_stand_ins'].shell.append(command)
    return 0

os.system = _shell

class PlannerAgent:
    def decompose(self, command):
        plans = {
            'build feature x': ['compile', 'query llm explain error'],
            'check feature x': ['git status', 'query llm explain error'],
            'repair deps': ['git fetch', 'git broken import', 'git status'],
            'reparse': ['query llm hello', 'git parse', 'compile'],
            'empty plan': [],
            'bad plan': 'not a list',
            '--nl create repo': ['planned', 'by', 'the', 'planner'],
            '--nl nothing to do': [],
        }
        return plans[command]

class LLMAgent:
    def generate(self, prompt):
        if prompt == 'explain error':
            raise RuntimeError('model down')
        if prompt == 'number':
            return 42
        if prompt == 'quote':
            return 'say \"hi\"\\n\\\\'
        return 'echo: ' + prompt

class GitAgent:
    def execute_git_action(self, sub_task):
        if 'broken import' in sub_task:
            return {'success': False, 'message': 'ImportError: dulwich'}
        if 'parse' in sub_task:
            return {'success': False, 'message': 'parse fail near HEAD'}
        if 'partial' in sub_task:
            return {'message': 'no flag'}
        if 'silent' in sub_task:
            return {'success': True}
        if 'odd' in sub_task:
            return {'success': 'yes', 'message': 'text flag'}
        if 'crash' in sub_task:
            raise RuntimeError('no repository')
        if 'string' in sub_task:
            return 'done'
        return {'success': True, 'message': 'ok ' + sub_task, 'extra': 1}

class DebugAgent:
    def re_plan(self, strategy, context_id):
        if context_id.endswith('no-debug'):
            raise RuntimeError('debug agent down')
        return 'retry with ' + strategy + ' [' + context_id + ']'

class QdrantMemory:
    def store_context(self, message, context_id, payload):
        if context_id.endswith('no-memory'):
            raise RuntimeError('memory down')
        sys.modules['axion_stand_ins'].records.append((message, context_id, dict(payload)))

def _module(name, **items):
    module = types.ModuleType(name)
    for key, value in items.items():
        setattr(module, key, value)
    return sys.modules.setdefault(name, module)

_module('python')
_module('python.agents')
_module('python.memory', QdrantMemory=QdrantMemory)
_module('python.agents.planner_agent', PlannerAgent=PlannerAgent)
_module('python.agents.llm_agent', LLMAgent=LLMAgent)
_module('python.agents.git_agent', GitAgent=GitAgent)
_module('python.agents.debug_agent', DebugAgent=DebugAgent)
",
            None,
            None,
        )
    });
    loaded.unwrap();
    CognitiveOrchestrator::new()
}

fn anomalies(context_id: &str) -> Vec<(String, HashMap<String, String>)> {
    let all = Python::attach(|py| -> PyResult<Vec<(String, String, HashMap<String, String>)>> {
        Ok(py.import("axion_stand_ins")?.getattr("records")?.extract()?)
    });
    all.unwrap()
        .into_iter()
        .filter(|(_, context, _)| context == context_id)
        .map(|(message, _, payload)| (message, payload))
        .collect()
}

fn shell_commands() -> Vec<String> {
    let all = Python::attach(|py| -> PyResult<Vec<String>> {
        Ok(py.import("axion_stand_ins")?.getattr("shell")?.extract()?)
    });
    all.unwrap()
}

fn error_payload() -> HashMap<String, String> {
    HashMap::from([("type".to_string(), "error".to_string())])
}

#[test]
fn the_planner_decomposition_becomes_the_plan() {
    let mut orchestrator = providers();
    let plan = orchestrator.proactive_plan("build feature x".to_string(), "plan-1");
    assert_eq!(plan, strings(&["compile", "query llm explain error"]));
}

#[test]
fn a_planner_that_raises_leaves_the_command() {
    let mut orchestrator = providers();
    let plan = orchestrator.proactive_plan("unheard of".to_string(), "plan-2");
    assert_eq!(plan, strings(&["unheard of"]));
}

#[test]
fn a_planner_answer_that_is_no_list_leaves_the_command() {
    let mut orchestrator = providers();
    let plan = orchestrator.proactive_plan("bad plan".to_string(), "plan-3");
    assert_eq!(plan, strings(&["bad plan"]));
}

#[test]
fn a_planner_answer_without_subtasks_leaves_the_command() {
    let mut orchestrator = providers();
    let plan = orchestrator.proactive_plan("empty plan".to_string(), "plan-4");
    assert_eq!(plan, strings(&["empty plan"]));
}

#[test]
fn a_marked_command_is_planned_behind_the_dependency_check() {
    let mut orchestrator = providers();
    let plan = orchestrator.proactive_plan("--nl create repo".to_string(), "plan-5");
    assert_eq!(plan, strings(&["check_install_deps", "planned", "by", "the", "planner"]));
}

#[test]
fn a_marked_command_with_an_empty_decomposition_is_planned_as_the_check_alone() {
    let mut orchestrator = providers();
    let plan = orchestrator.proactive_plan("--nl nothing to do".to_string(), "plan-6");
    assert_eq!(plan, strings(&["check_install_deps"]));
}

#[test]
fn a_marked_command_is_planned_behind_the_check_where_the_planner_raises() {
    let mut orchestrator = providers();
    let plan = orchestrator.proactive_plan("--nl unheard of".to_string(), "plan-7");
    assert_eq!(plan, strings(&["check_install_deps", "--nl unheard of"]));
}

#[test]
fn a_commit_is_answered_by_the_version_control_actor() {
    let mut orchestrator = providers();
    let result = orchestrator.dispatch("commit".to_string(), "c1");
    assert_eq!(result.output, "Git: ok commit");
    assert!(result.status);
    let result = orchestrator.dispatch("add_initial_files".to_string(), "c1");
    assert_eq!(result.output, "Git: ok add_initial_files");
    assert!(result.status);
}

#[test]
fn the_dependency_check_runs_the_installer() {
    let mut orchestrator = providers();
    let result = orchestrator.dispatch("check_install_deps".to_string(), "route-1");
    assert_eq!(result.output, "Deps installed");
    assert!(result.status);
    assert!(shell_commands().contains(&"pip install -r requirements.txt".to_string()));
}

#[test]
fn a_query_hands_the_prompt_to_the_model() {
    let mut orchestrator = providers();
    let result = orchestrator.dispatch("query llm hello there".to_string(), "route-2");
    assert_eq!(result.output, "echo: hello there");
    assert!(result.status);
    let result = orchestrator.dispatch("query llm a query llm b".to_string(), "route-2");
    assert_eq!(result.output, "echo: a b");
}

#[test]
fn a_query_that_names_git_is_answered_by_the_model() {
    let mut orchestrator = providers();
    let result = orchestrator.dispatch("query llm git status".to_string(), "route-3");
    assert_eq!(result.output, "echo: git status");
    assert!(result.status);
}

#[test]
fn a_model_that_raises_or_gives_no_text_fails_the_query() {
    let mut orchestrator = providers();
    for sub_task in ["query llm explain error", "query llm number"] {
        let result = orchestrator.dispatch(sub_task.to_string(), "route-4");
        assert_eq!(result.output, "LLM Err");
        assert!(!result.status);
    }
}

#[test]
fn a_git_action_gets_the_whole_subtask_and_gives_message_and_status() {
    let mut orchestrator = providers();
    let result = orchestrator.dispatch("git status --short".to_string(), "route-5");
    assert_eq!(result.output, "Git: ok git status --short");
    assert!(result.status);
    let result = orchestrator.dispatch("git broken import".to_string(), "route-5");
    assert_eq!(result.output, "Git: ImportError: dulwich");
    assert!(!result.status);
}

#[test]
fn a_git_reply_that_is_malformed_is_an_error() {
    let mut orchestrator = providers();
    for sub_task in ["git partial", "git silent", "git odd", "git crash", "git string"] {
        let result = orchestrator.dispatch(sub_task.to_string(), "route-6");
        assert_eq!(result.output, "Git Err", "{}", sub_task);
        assert!(!result.status);
    }
}

#[test]
fn an_unknown_subtask_reaches_no_provider() {
    let mut orchestrator = providers();
    let result = orchestrator.dispatch("compile".to_string(), "route-7");
    assert_eq!(result.output, "Unknown task");
    assert!(!result.status);
}

#[test]
fn a_success_is_neither_recorded_nor_replanned() {
    let mut orchestrator = providers();
    let result = AgentResult { output: "ImportError, but handled".to_string(), status: true };
    assert!(!orchestrator.self_debug(&result, "compile", "repair-1"));
    assert!(anomalies("repair-1").is_empty());
    assert!(orchestrator.diagnostics.is_empty());
}

#[test]
fn a_classified_failure_is_recorded_replanned_and_ends_the_session() {
    let mut orchestrator = providers();
    let result = AgentResult { output: "ImportError: requests".to_string(), status: false };
    assert!(orchestrator.self_debug(&result, "compile", "repair-2"));
    assert_eq!(
        anomalies("repair-2"),
        vec![("Anomaly: ImportError: requests".to_string(), error_payload())]
    );
    assert_eq!(
        orchestrator.diagnostics,
        strings(&["Re-plan: retry with install missing deps and retry [repair-2]"])
    );
    let result = AgentResult { output: "nl parse fail".to_string(), status: false };
    assert!(orchestrator.self_debug(&result, "parse_nl", "repair-2b"));
    assert_eq!(
        orchestrator.diagnostics,
        strings(&[
            "Re-plan: retry with install missing deps and retry [repair-2]",
            "Re-plan: retry with replan NL parse [repair-2b]",
        ])
    );
}

#[test]
fn an_unclassified_failure_is_recorded_and_passed_over() {
    let mut orchestrator = providers();
    let result = AgentResult { output: "LLM Err".to_string(), status: false };
    assert!(!orchestrator.self_debug(&result, "query llm x", "repair-3"));
    assert_eq!(anomalies("repair-3"), vec![("Anomaly: LLM Err".to_string(), error_payload())]);
    assert!(orchestrator.diagnostics.is_empty());
}

#[test]
fn a_replan_that_fails_lets_the_session_go_on() {
    let mut orchestrator = providers();
    let result = AgentResult { output: "ImportError: requests".to_string(), status: false };
    assert!(!orchestrator.self_debug(&result, "compile", "repair-4-no-debug"));
    assert_eq!(anomalies("repair-4-no-debug").len(), 1);
    assert!(orchestrator.diagnostics.is_empty());
}

#[test]
fn a_memory_store_that_raises_is_passed_over() {
    let mut orchestrator = providers();
    let result = AgentResult { output: "parse fail".to_string(), status: false };
    assert!(orchestrator.self_debug(&result, "parse_nl", "repair-5-no-memory"));
    assert!(anomalies("repair-5-no-memory").is_empty());
    assert_eq!(
        orchestrator.diagnostics,
        strings(&["Re-plan: retry with replan NL parse [repair-5-no-memory]"])
    );
}

#[test]
fn build_feature_x_ends_with_two_outputs() {
    let mut orchestrator = providers();
    let encoded = orchestrator.process("build feature x".to_string(), "session-1");
    assert_eq!(encoded, "[\"Unknown task\",\"LLM Err\"]");
    assert_eq!(
        anomalies("session-1"),
        vec![
            ("Anomaly: Unknown task".to_string(), error_payload()),
            ("Anomaly: LLM Err".to_string(), error_payload()),
        ]
    );
    assert!(orchestrator.diagnostics.is_empty());
    assert_eq!(orchestrator.active_goals, strings(&["build feature x"]));
}

#[test]
fn a_session_goes_on_after_a_success_and_after_an_unclassified_failure() {
    let mut orchestrator = providers();
    let trace = orchestrator.run("check feature x".to_string(), "session-2");
    assert_eq!(dispatched(&trace), strings(&["git status", "query llm explain error"]));
    assert_eq!(output_log(&trace), strings(&["Git: ok git status", "LLM Err"]));
    assert!(trace[0].result.status && !trace[0].abort);
    assert!(!trace[1].result.status && !trace[1].abort);
    assert_eq!(anomalies("session-2"), vec![("Anomaly: LLM Err".to_string(), error_payload())]);
}

#[test]
fn nothing_is_dispatched_after_the_step_that_gave_up() {
    let mut orchestrator = providers();
    let trace = orchestrator.run("repair deps".to_string(), "session-3");
    assert_eq!(dispatched(&trace), strings(&["git fetch", "git broken import"]));
    assert_eq!(output_log(&trace), strings(&["Git: ok git fetch", "Git: ImportError: dulwich"]));
    assert!(!trace[0].abort);
    assert!(trace[1].abort);
    assert_eq!(
        orchestrator.diagnostics,
        strings(&["Re-plan: retry with install missing deps and retry [session-3]"])
    );
    let encoded = orchestrator.process("reparse".to_string(), "session-3b");
    assert_eq!(encoded, "[\"echo: hello\",\"Git: parse fail near HEAD\"]");
    assert_eq!(orchestrator.diagnostics.len(), 2);
}

#[test]
fn the_whole_plan_is_dispatched_where_the_replan_fails() {
    let mut orchestrator = providers();
    let trace = orchestrator.run("repair deps".to_string(), "session-4-no-debug");
    assert_eq!(dispatched(&trace), strings(&["git fetch", "git broken import", "git status"]));
    assert!(trace.iter().all(|step| !step.abort));
    assert!(orchestrator.diagnostics.is_empty());
}

#[test]
fn create_repo_dispatches_the_pipeline_whatever_the_planner_said() {
    let mut orchestrator = providers();
    let before = shell_commands().len();
    let trace = orchestrator.run("--nl create repo".to_string(), "session-5");
    assert_eq!(
        dispatched(&trace),
        strings(&["parse_nl", "git_init", "add_initial_files", "commit", "github_push"])
    );
    assert_eq!(
        output_log(&trace),
        strings(&[
            "Unknown task",
            "Git: ok git_init",
            "Git: ok add_initial_files",
            "Git: ok commit",
            "Git: ok github_push",
        ])
    );
    assert!(trace.iter().all(|step| step.sub_task != "check_install_deps"));
    assert_eq!(shell_commands().len(), before);
}

#[test]
fn the_log_is_encoded_with_json_escapes() {
    let mut orchestrator = providers();
    let encoded = orchestrator.process("query llm quote".to_string(), "session-6");
    assert_eq!(encoded, "[\"say \\\"hi\\\"\\n\\\\\"]");
    let decoded: Vec<String> = serde_json::from_str(&encoded).unwrap();
    assert_eq!(decoded, strings(&["say \"hi\"\n\\"]));
}
