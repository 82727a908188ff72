//! The orchestration loop: plan, dispatch, repair, and the log of outputs.
//!
//! A session runs the subtasks of one command in order. Each subtask is
//! dispatched once and its output logged; then the self-repair unit looks
//! at the result and may give up the rest of the session. What the
//! capabilities answer is not known beforehand, so the contracts of the
//! functions that call them say what holds of every answer, over the trace
//! of the steps that were taken.

use crate::outcome::{dispatch_admits, git_result, install_result, llm_result, unknown_result};
use crate::planning::{apply_override, decomposition_view, plan_for, plan_from, schedule_for};
use crate::providers::{
    decompose, encode_json, execute_git_action, generate, json_array_of, re_plan, run_shell,
    store_context,
};
use crate::repair::{
    diagnostics_grow, plan_repair, replans, verdict, PAYLOAD_ERROR, PAYLOAD_KEY,
};
use crate::routing::{classify, llm_prompt, SubtaskKind, INSTALL_COMMAND};
use crate::text::texts;
use vstd::prelude::*;

verus! {

/// Outcome of one dispatched subtask.
#[derive(Debug)]
pub struct AgentResult {
    /// The payload on success, a description of the error on failure.
    pub output: String,
    /// Whether the capability considers the subtask done.
    pub status: bool,
}

/// An `AgentResult` as plain values.
pub struct Outcome {
    pub output: Seq<char>,
    pub status: bool,
}

impl View for AgentResult {
    type V = Outcome;

    open spec fn view(&self) -> Outcome {
        Outcome { output: self.output@, status: self.status }
    }
}

/// One step of a session: a subtask, what the dispatcher answered, and
/// whether the self-repair unit gave up the session after it.
#[derive(Debug)]
pub struct Step {
    pub sub_task: String,
    pub result: AgentResult,
    pub abort: bool,
}

/// A `Step` as plain values.
pub struct StepView {
    pub sub_task: Seq<char>,
    pub result: Outcome,
    pub abort: bool,
}

impl View for Step {
    type V = StepView;

    open spec fn view(&self) -> StepView {
        StepView { sub_task: self.sub_task@, result: self.result@, abort: self.abort }
    }
}

/// The steps of a trace as plain values.
pub open spec fn steps(trace: Seq<Step>) -> Seq<StepView> {
    Seq::new(trace.len(), |i: int| trace[i]@)
}

/// The subtasks that a trace dispatched, in order.
pub open spec fn dispatched_of(trace: Seq<StepView>) -> Seq<Seq<char>> {
    Seq::new(trace.len(), |i: int| trace[i].sub_task)
}

/// The log of outputs of a trace: one output for each step, in order.
pub open spec fn outputs_of(trace: Seq<StepView>) -> Seq<Seq<char>> {
    Seq::new(trace.len(), |i: int| trace[i].result.output)
}

/// A step that the loop can take: the result answers the subtask, and the
/// session is given up only after a result for which a new plan is
/// requested.
pub open spec fn step_admits(step: StepView) -> bool {
    dispatch_admits(step.sub_task, step.result) && (step.abort ==> replans(step.result))
}

/// Whether the session was given up: its last step says so.
pub open spec fn aborted(trace: Seq<StepView>) -> bool {
    trace.len() > 0 && trace.last().abort
}

/// A trace that the loop can leave for `subtasks`: the subtasks are
/// dispatched in order and once each; nothing is dispatched behind a step
/// that gave up the session; and all of them are dispatched unless a step
/// gave it up.
pub open spec fn trace_follows(subtasks: Seq<Seq<char>>, trace: Seq<StepView>) -> bool {
    &&& trace.len() <= subtasks.len()
    &&& forall|i: int|
        0 <= i < trace.len() ==> (#[trigger] trace[i]).sub_task == subtasks[i] && step_admits(
            trace[i],
        )
    &&& forall|i: int| 0 <= i < trace.len() - 1 ==> !(#[trigger] trace[i]).abort
    &&& trace.len() < subtasks.len() ==> aborted(trace)
}

/// A trace that a session can leave for `command`: one that follows the
/// command's schedule for some answer of the planner.
pub open spec fn session_admits(command: Seq<char>, trace: Seq<StepView>) -> bool {
    exists|decomposition: Option<Seq<Seq<char>>>| #[trigger]
        trace_follows(schedule_for(command, decomposition), trace)
}

/// The driver of the loop, with the history of the commands it was given
/// and the diagnostics it has emitted.
#[derive(Debug)]
pub struct CognitiveOrchestrator {
    /// Every command that was submitted, oldest first. Never read here.
    pub active_goals: Vec<String>,
    /// Every diagnostic that the self-repair unit emitted, oldest first,
    /// for the host to print.
    pub diagnostics: Vec<String>,
}

impl CognitiveOrchestrator {
    /// An orchestrator with no history.
    pub fn new() -> (fresh: Self)
        ensures
            fresh.active_goals@.len() == 0,
            fresh.diagnostics@.len() == 0,
    {
        CognitiveOrchestrator { active_goals: Vec::new(), diagnostics: Vec::new() }
    }

    /// Plans a command: asks the planner for a decomposition and builds
    /// the plan from its answer. The plan is never empty, and the
    /// orchestrator is left as it was. The planner is given the command
    /// alone; `context_id` is taken for the sake of the interface.
    pub fn proactive_plan(&mut self, command: String, context_id: &str) -> (plan: Vec<String>)
        ensures
            *final(self) == *old(self),
            exists|decomposition: Option<Seq<Seq<char>>>|
                texts(plan@) == #[trigger] plan_for(command@, decomposition),
            plan.len() > 0,
    {
        let decomposition = decompose(command.as_str());
        let ghost answer = decomposition_view(decomposition);
        let plan = plan_from(command, decomposition);
        assert(texts(plan@) == plan_for(command@, answer));
        plan
    }

    /// Looks at the result of a subtask and says whether to give up the
    /// rest of the session. After a success nothing is done. After a
    /// failure the anomaly is recorded, and where the failure is
    /// classified a new plan is requested: if the request is answered the
    /// new plan is emitted as a diagnostic and the session is given up.
    /// `orig_cmd` names the subtask that the result belongs to; the unit
    /// does not read it.
    pub fn self_debug(&mut self, result: &AgentResult, orig_cmd: &str, context_id: &str) -> (abort:
        bool)
        ensures
            final(self).active_goals == old(self).active_goals,
            result.status ==> !abort,
            abort ==> replans(result@),
            diagnostics_grow(
                texts(old(self).diagnostics@),
                texts(final(self).diagnostics@),
                abort,
            ),
    {
        let plan = plan_repair(result);
        match &plan.anomaly {
            Some(message) => {
                store_context(message.as_str(), context_id, PAYLOAD_KEY, PAYLOAD_ERROR);
            },
            None => {},
        }
        let replan = match plan.strategy {
            Some(strategy) => re_plan(strategy, context_id),
            None => None,
        };
        match verdict(result, replan) {
            Some(line) => {
                let ghost before = self.diagnostics@;
                self.diagnostics.push(line);
                assert(texts(self.diagnostics@) =~= texts(before).push(line@));
                true
            },
            None => false,
        }
    }

    /// Runs the loop over `subtasks` and returns the trace of its steps.
    pub fn execute(&mut self, subtasks: Vec<String>, context_id: &str) -> (trace: Vec<Step>)
        ensures
            final(self).active_goals == old(self).active_goals,
            trace_follows(texts(subtasks@), steps(trace@)),
            diagnostics_grow(
                texts(old(self).diagnostics@),
                texts(final(self).diagnostics@),
                aborted(steps(trace@)),
            ),
    {
        let mut trace: Vec<Step> = Vec::new();
        let mut i: usize = 0;
        while i < subtasks.len()
            invariant
                i == trace.len(),
                i <= subtasks.len(),
                self.active_goals == old(self).active_goals,
                texts(self.diagnostics@) == texts(old(self).diagnostics@),
                forall|k: int|
                    0 <= k < i ==> (#[trigger] steps(trace@)[k]).sub_task == texts(subtasks@)[k]
                        && step_admits(steps(trace@)[k]) && !steps(trace@)[k].abort,
            decreases subtasks.len() - i,
        {
            let sub_task = subtasks[i].clone();
            let result = self.dispatch(sub_task.clone(), context_id);
            let abort = self.self_debug(&result, sub_task.as_str(), context_id);
            let ghost taken = steps(trace@);
            trace.push(Step { sub_task, result, abort });
            proof {
                let now = steps(trace@);
                assert(now.len() == i + 1);
                assert(now[i as int].sub_task == texts(subtasks@)[i as int]);
                assert forall|k: int| 0 <= k < i implies now[k] == taken[k] by {}
            }
            if abort {
                return trace;
            }
            i = i + 1;
        }
        trace
    }

    /// Runs the session of one command and returns the trace of its steps:
    /// plans the command, puts the pipeline in the plan's place where the
    /// command is in natural-language mode, notes the command in the
    /// history, and runs the loop.
    pub fn run(&mut self, command: String, context_id: &str) -> (trace: Vec<Step>)
        ensures
            texts(final(self).active_goals@) == texts(old(self).active_goals@).push(command@),
            session_admits(command@, steps(trace@)),
            diagnostics_grow(
                texts(old(self).diagnostics@),
                texts(final(self).diagnostics@),
                aborted(steps(trace@)),
            ),
    {
        let planned = self.proactive_plan(command.clone(), context_id);
        let ghost decomposition = choose|decomposition: Option<Seq<Seq<char>>>|
            texts(planned@) == #[trigger] plan_for(command@, decomposition);
        let subtasks = apply_override(command.as_str(), planned);
        assert(texts(subtasks@) == schedule_for(command@, decomposition));
        let ghost before = self.active_goals@;
        self.active_goals.push(command);
        assert(texts(self.active_goals@) =~= texts(before).push(command@));
        self.execute(subtasks, context_id)
    }

    /// Processes one command and returns the log of outputs, encoded as a
    /// JSON array of strings.
    pub fn process(&mut self, command: String, context_id: &str) -> (encoded: String)
        ensures
            texts(final(self).active_goals@) == texts(old(self).active_goals@).push(command@),
            exists|trace: Seq<StepView>|
                #![trigger session_admits(command@, trace)]
                {
                    &&& session_admits(command@, trace)
                    &&& diagnostics_grow(
                        texts(old(self).diagnostics@),
                        texts(final(self).diagnostics@),
                        aborted(trace),
                    )
                    &&& encoded@ == json_array_of(outputs_of(trace))
                },
    {
        let trace = self.run(command, context_id);
        let outputs = output_log(&trace);
        encode_json(&outputs)
    }

    /// Routes a subtask to its capability and turns whatever comes back
    /// into one result. The installer is given the install command, the
    /// language model the prompt of the query, the version-control actor
    /// the whole subtask; none of them is given `context_id`. The
    /// orchestrator is left as it was.
    pub fn dispatch(&mut self, sub_task: String, context_id: &str) -> (result: AgentResult)
        ensures
            *final(self) == *old(self),
            dispatch_admits(sub_task@, result@),
    {
        match classify(sub_task.as_str()) {
            SubtaskKind::InstallDeps => install_result(run_shell(INSTALL_COMMAND)),
            SubtaskKind::LlmQuery => {
                let prompt = llm_prompt(sub_task.as_str());
                llm_result(generate(prompt.as_str()))
            },
            SubtaskKind::VersionControl => git_result(execute_git_action(sub_task.as_str())),
            SubtaskKind::Unknown => unknown_result(),
        }
    }
}

/// The log of outputs of a trace: one output for each step, in order.
pub fn output_log(trace: &Vec<Step>) -> (outputs: Vec<String>)
    ensures
        texts(outputs@) == outputs_of(steps(trace@)),
{
    let mut outputs: Vec<String> = Vec::new();
    let mut i: usize = 0;
    while i < trace.len()
        invariant
            i <= trace.len(),
            outputs.len() == i,
            forall|k: int| 0 <= k < i ==> (#[trigger] outputs@[k])@ == trace@[k].result.output@,
        decreases trace.len() - i,
    {
        outputs.push(trace[i].result.output.clone());
        i = i + 1;
    }
    assert(texts(outputs@) =~= outputs_of(steps(trace@)));
    outputs
}

} // verus!
