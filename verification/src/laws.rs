//! What holds of the orchestrator for every command, every subtask and
//! every answer of the capabilities, proved from the definitions that the
//! contracts of the library are stated in.

use crate::orchestrator::{
    aborted, dispatched_of, outputs_of, session_admits, step_admits, trace_follows, Outcome,
    StepView,
};
use crate::outcome::{
    git_outcome, install_outcome, llm_outcome, unknown_outcome, well_formed, GitReplyView,
    DEPS_FAILED, GIT_FAILED, GIT_LABEL, LLM_FAILED, UNKNOWN_TASK,
};
use crate::planning::{
    natural_language, pipeline, plan_for, schedule_for, STAGE_ADD, STAGE_COMMIT, STAGE_INIT,
    STAGE_PARSE, STAGE_PUSH,
};
use crate::repair::{
    aborts, class_of, repair_plan_for, replans, FailureClass, RepairPlanView,
    IMPORT_ERROR_MARKER, PARSE_FAIL_MARKER,
};
use crate::routing::{
    kind_of, prompt_of, SubtaskKind, INSTALL_SENTINEL, LLM_PREFIX, LLM_STRIP, VCS_MARKER,
    VCS_MARKER_ADD, VCS_MARKER_COMMIT,
};
use crate::text::{has_infix, has_prefix, lemma_strip_all_absent, occurs_at, strip_all};
use vstd::prelude::*;

verus! {

/// Without a planner, the plan of a command that is not in
/// natural-language mode is the command alone.
pub proof fn lemma_plan_without_planner(command: Seq<char>)
    requires
        !natural_language(command),
    ensures
        plan_for(command, None) == seq![command],
{
}

/// Without a planner, the plan of a command in natural-language mode is
/// the dependency check and then the command.
pub proof fn lemma_plan_without_planner_marked(command: Seq<char>)
    requires
        natural_language(command),
    ensures
        plan_for(command, None) == seq![INSTALL_SENTINEL@, command],
{
    assert(seq![INSTALL_SENTINEL@] + seq![command] =~= seq![INSTALL_SENTINEL@, command]);
}

/// The plan of a command in natural-language mode is the dependency check
/// and then the planner's decomposition as it came, also where that holds
/// no subtask.
pub proof fn lemma_marked_plan_keeps_decomposition(command: Seq<char>, tasks: Seq<Seq<char>>)
    requires
        natural_language(command),
    ensures
        plan_for(command, Some(tasks)) == seq![INSTALL_SENTINEL@] + tasks,
        plan_for(command, Some(tasks)).len() == tasks.len() + 1,
        plan_for(command, Some(tasks))[0] == INSTALL_SENTINEL@,
{
}

/// The plan of a command that is not in natural-language mode is the
/// planner's decomposition where that holds a subtask, and the command
/// alone where it holds none.
pub proof fn lemma_unmarked_plan(command: Seq<char>, tasks: Seq<Seq<char>>)
    requires
        !natural_language(command),
    ensures
        tasks.len() > 0 ==> plan_for(command, Some(tasks)) == tasks,
        tasks.len() == 0 ==> plan_for(command, Some(tasks)) == seq![command],
{
}

/// A plan is never empty, whatever the planner answered.
pub proof fn lemma_plan_not_empty(command: Seq<char>, decomposition: Option<Seq<Seq<char>>>)
    ensures
        plan_for(command, decomposition).len() > 0,
{
}

/// For a command in natural-language mode the schedule is the pipeline,
/// whatever the planner answered.
pub proof fn lemma_marked_command_runs_pipeline(
    command: Seq<char>,
    decomposition: Option<Seq<Seq<char>>>,
)
    requires
        natural_language(command),
    ensures
        schedule_for(command, decomposition) == pipeline(),
{
}

/// No stage of the pipeline is the dependency check.
pub proof fn lemma_check_not_in_pipeline()
    ensures
        forall|i: int| 0 <= i < 5 ==> #[trigger] pipeline()[i] != INSTALL_SENTINEL@,
{
    reveal_strlit("check_install_deps");
    reveal_strlit("parse_nl");
    reveal_strlit("git_init");
    reveal_strlit("add_initial_files");
    reveal_strlit("commit");
    reveal_strlit("github_push");
    assert(STAGE_PARSE@.len() != INSTALL_SENTINEL@.len());
    assert(STAGE_INIT@.len() != INSTALL_SENTINEL@.len());
    assert(STAGE_ADD@.len() != INSTALL_SENTINEL@.len());
    assert(STAGE_COMMIT@.len() != INSTALL_SENTINEL@.len());
    assert(STAGE_PUSH@.len() != INSTALL_SENTINEL@.len());
}

/// A subtask that begins with the language-model marker is a
/// language-model query, also where it holds a version-control marker.
pub proof fn lemma_llm_before_version_control(sub_task: Seq<char>)
    requires
        has_prefix(sub_task, LLM_PREFIX@),
    ensures
        kind_of(sub_task) == SubtaskKind::LlmQuery,
{
    reveal_strlit("check_install_deps");
    reveal_strlit("query llm");
    if sub_task == INSTALL_SENTINEL@ {
        assert(sub_task.subrange(0, 9)[0] == sub_task[0]);
        assert(false);
    }
}

/// No route takes the first stage of the pipeline.
pub proof fn lemma_parse_stage_is_unknown()
    ensures
        kind_of(STAGE_PARSE@) == SubtaskKind::Unknown,
{
    reveal_strlit("check_install_deps");
    reveal_strlit("query llm");
    reveal_strlit("git");
    reveal_strlit("add_initial_files");
    reveal_strlit("commit");
    reveal_strlit("parse_nl");
    let stage = STAGE_PARSE@;
    assert forall|i: int| !occurs_at(stage, VCS_MARKER@, i) by {
        if occurs_at(stage, VCS_MARKER@, i) {
            assert(stage.subrange(i, i + 3)[0] == 'g');
        }
    }
    assert forall|i: int| !occurs_at(stage, VCS_MARKER_COMMIT@, i) by {
        if occurs_at(stage, VCS_MARKER_COMMIT@, i) {
            assert(stage.subrange(i, i + 6)[0] == 'c');
        }
    }
    assert(!has_prefix(stage, LLM_PREFIX@)) by {
        if has_prefix(stage, LLM_PREFIX@) {
            assert(stage.subrange(0, 9)[0] == 'q');
        }
    }
}

/// A subtask that holds a version-control marker, is not the dependency
/// check and does not begin with the language-model marker is answered by
/// the version-control actor.
pub proof fn lemma_marker_routes_to_version_control(
    sub_task: Seq<char>,
    marker: Seq<char>,
    at: int,
)
    requires
        marker == VCS_MARKER@ || marker == VCS_MARKER_ADD@ || marker == VCS_MARKER_COMMIT@,
        occurs_at(sub_task, marker, at),
        sub_task != INSTALL_SENTINEL@,
        !has_prefix(sub_task, LLM_PREFIX@),
    ensures
        kind_of(sub_task) == SubtaskKind::VersionControl,
{
}

/// Where the stages of the pipeline are routed: no route takes the first
/// stage, and the version-control actor answers the other four.
pub proof fn lemma_pipeline_routes()
    ensures
        kind_of(STAGE_PARSE@) == SubtaskKind::Unknown,
        kind_of(STAGE_INIT@) == SubtaskKind::VersionControl,
        kind_of(STAGE_ADD@) == SubtaskKind::VersionControl,
        kind_of(STAGE_COMMIT@) == SubtaskKind::VersionControl,
        kind_of(STAGE_PUSH@) == SubtaskKind::VersionControl,
{
    lemma_parse_stage_is_unknown();
    lemma_check_not_in_pipeline();
    assert(pipeline()[1] == STAGE_INIT@ && pipeline()[2] == STAGE_ADD@ && pipeline()[3]
        == STAGE_COMMIT@ && pipeline()[4] == STAGE_PUSH@);
    assert(!has_prefix(STAGE_INIT@, LLM_PREFIX@) && !has_prefix(STAGE_ADD@, LLM_PREFIX@)
        && !has_prefix(STAGE_COMMIT@, LLM_PREFIX@) && !has_prefix(STAGE_PUSH@, LLM_PREFIX@)) by {
        reveal_strlit("query llm");
        reveal_strlit("git_init");
        reveal_strlit("add_initial_files");
        reveal_strlit("commit");
        reveal_strlit("github_push");
        if has_prefix(STAGE_ADD@, LLM_PREFIX@) {
            assert(STAGE_ADD@.subrange(0, 9)[0] == 'q');
        }
        if has_prefix(STAGE_PUSH@, LLM_PREFIX@) {
            assert(STAGE_PUSH@.subrange(0, 9)[0] == 'q');
        }
    }
    assert(occurs_at(STAGE_INIT@, VCS_MARKER@, 0) && occurs_at(STAGE_PUSH@, VCS_MARKER@, 0)) by {
        reveal_strlit("git");
        reveal_strlit("git_init");
        reveal_strlit("github_push");
        assert(STAGE_INIT@.subrange(0, 3) =~= VCS_MARKER@);
        assert(STAGE_PUSH@.subrange(0, 3) =~= VCS_MARKER@);
    }
    assert(occurs_at(STAGE_ADD@, VCS_MARKER_ADD@, 0)) by {
        assert(STAGE_ADD@.subrange(0, STAGE_ADD@.len() as int) =~= STAGE_ADD@);
    }
    assert(occurs_at(STAGE_COMMIT@, VCS_MARKER_COMMIT@, 0)) by {
        assert(STAGE_COMMIT@.subrange(0, STAGE_COMMIT@.len() as int) =~= STAGE_COMMIT@);
    }
    lemma_marker_routes_to_version_control(STAGE_INIT@, VCS_MARKER@, 0);
    lemma_marker_routes_to_version_control(STAGE_ADD@, VCS_MARKER_ADD@, 0);
    lemma_marker_routes_to_version_control(STAGE_COMMIT@, VCS_MARKER_COMMIT@, 0);
    lemma_marker_routes_to_version_control(STAGE_PUSH@, VCS_MARKER@, 0);
}

/// The prompt of a query that does not hold the marker with its blank is
/// the query itself.
pub proof fn lemma_prompt_without_marker(sub_task: Seq<char>)
    requires
        !has_infix(sub_task, LLM_STRIP@),
    ensures
        prompt_of(sub_task) == sub_task,
{
    lemma_strip_all_absent(sub_task, LLM_STRIP@);
}

/// The prompt of a query that begins with the marker and its blank is the
/// prompt of what follows them: the rest itself, where the rest does not
/// hold them again.
pub proof fn lemma_prompt_drops_leading_marker(rest: Seq<char>)
    ensures
        prompt_of(LLM_STRIP@ + rest) == prompt_of(rest),
        !has_infix(rest, LLM_STRIP@) ==> prompt_of(LLM_STRIP@ + rest) == rest,
{
    reveal_strlit("query llm ");
    let marker = LLM_STRIP@;
    let query = marker + rest;
    assert(query.subrange(0, marker.len() as int) =~= marker);
    assert(query.skip(marker.len() as int) =~= rest);
    assert(strip_all(query, marker) == strip_all(rest, marker));
    if !has_infix(rest, marker) {
        lemma_strip_all_absent(rest, marker);
    }
}

/// Where the call behind a route fails, gives nothing, or gives a reply
/// that lacks a field, and where the installer's command ends with another
/// exit status than 0, the result of the route is a failure.
pub proof fn lemma_failed_call_fails(status: Option<i64>, reply: Option<GitReplyView>)
    ensures
        status != Some(0i64) ==> !install_outcome(status).status,
        !llm_outcome(None).status,
        !well_formed(reply) ==> !git_outcome(reply).status,
        !unknown_outcome().status,
{
}

/// The fixed texts of the failing results report neither a missing
/// dependency nor a failed parse.
pub proof fn lemma_fixed_failures_are_unclassified()
    ensures
        class_of(DEPS_FAILED@) == FailureClass::Unclassified,
        class_of(LLM_FAILED@) == FailureClass::Unclassified,
        class_of(GIT_FAILED@) == FailureClass::Unclassified,
        class_of(UNKNOWN_TASK@) == FailureClass::Unclassified,
{
    reveal_strlit("ImportError");
    reveal_strlit("parse fail");
    reveal_strlit("Dep Install Err");
    reveal_strlit("LLM Err");
    reveal_strlit("Git Err");
    reveal_strlit("Unknown task");
    let import = IMPORT_ERROR_MARKER@;
    let parse = PARSE_FAIL_MARKER@;
    assert forall|text: Seq<char>, i: int|
        (text == DEPS_FAILED@ || text == LLM_FAILED@ || text == GIT_FAILED@ || text
            == UNKNOWN_TASK@) implies !occurs_at(text, import, i) by {
        if occurs_at(text, import, i) {
            let window = text.subrange(i, i + 11);
            assert(window[0] == 'I' && window[1] == 'm');
        }
    }
    assert forall|text: Seq<char>, i: int|
        (text == DEPS_FAILED@ || text == LLM_FAILED@ || text == GIT_FAILED@ || text
            == UNKNOWN_TASK@) implies !occurs_at(text, parse, i) by {
        if occurs_at(text, parse, i) {
            let window = text.subrange(i, i + 10);
            assert(window[0] == 'p' && window[1] == 'a');
        }
    }
}

/// After a success the self-repair unit calls no capability and does not
/// give up the session.
pub proof fn lemma_success_needs_no_repair(result: Outcome, replan: Option<Seq<char>>)
    requires
        result.status,
    ensures
        repair_plan_for(result) == (RepairPlanView { anomaly: None, strategy: None }),
        !replans(result),
        !aborts(result, replan),
{
}

/// The session is given up exactly after a failure whose output holds the
/// dependency marker or the parse marker, and whose request for a new plan
/// was answered.
pub proof fn lemma_abort_exactly(result: Outcome, replan: Option<Seq<char>>)
    ensures
        aborts(result, replan) <==> !result.status && (has_infix(
            result.output,
            IMPORT_ERROR_MARKER@,
        ) || has_infix(result.output, PARSE_FAIL_MARKER@)) && replan is Some,
{
}

/// Nothing is dispatched behind the first step that gave up the session:
/// such a step is the last of the trace. What was dispatched is an initial
/// segment of the subtasks, all of them where no step gave up; and the log
/// holds one output for each subtask that was dispatched.
pub proof fn lemma_nothing_after_abort(subtasks: Seq<Seq<char>>, trace: Seq<StepView>)
    requires
        trace_follows(subtasks, trace),
    ensures
        forall|i: int| 0 <= i < trace.len() && (#[trigger] trace[i]).abort ==> i + 1 == trace.len(),
        dispatched_of(trace) == subtasks.take(trace.len() as int),
        !aborted(trace) ==> dispatched_of(trace) == subtasks,
        outputs_of(trace).len() == dispatched_of(trace).len(),
{
    assert(dispatched_of(trace) =~= subtasks.take(trace.len() as int));
    if !aborted(trace) {
        assert(subtasks.take(subtasks.len() as int) =~= subtasks);
    }
}

/// A session is given up only after an answer of the version-control
/// actor: a well-formed reply that reports a failure. A failed call, a
/// language-model answer and an unknown subtask never end it.
pub proof fn lemma_only_version_control_gives_up(step: StepView)
    requires
        step_admits(step),
        step.abort,
    ensures
        kind_of(step.sub_task) == SubtaskKind::VersionControl,
        !step.result.status,
        has_prefix(step.result.output, GIT_LABEL@),
{
    lemma_fixed_failures_are_unclassified();
    match kind_of(step.sub_task) {
        SubtaskKind::InstallDeps => {
            assert(false);
        },
        SubtaskKind::LlmQuery => {
            assert(false);
        },
        SubtaskKind::VersionControl => {
            let reply = choose|reply: Option<GitReplyView>| step.result == git_outcome(reply);
            assert(well_formed(reply));
            let output = GIT_LABEL@ + reply->0.message->0;
            assert(output.subrange(0, GIT_LABEL@.len() as int) =~= GIT_LABEL@);
        },
        SubtaskKind::Unknown => {
            assert(false);
        },
    }
}

/// The session of a command in natural-language mode dispatches the
/// stages of the pipeline in order, whatever the planner answered: all
/// five of them unless a step gave up the session, and the first ones up
/// to that step if one did. The dependency check is never dispatched.
pub proof fn lemma_marked_session_follows_pipeline(command: Seq<char>, trace: Seq<StepView>)
    requires
        natural_language(command),
        session_admits(command, trace),
    ensures
        trace.len() <= 5,
        dispatched_of(trace) == pipeline().take(trace.len() as int),
        !aborted(trace) ==> dispatched_of(trace) == pipeline(),
        !dispatched_of(trace).contains(INSTALL_SENTINEL@),
{
    let decomposition = choose|decomposition: Option<Seq<Seq<char>>>| #[trigger]
        trace_follows(schedule_for(command, decomposition), trace);
    lemma_marked_command_runs_pipeline(command, decomposition);
    lemma_check_not_in_pipeline();
    assert(dispatched_of(trace) =~= pipeline().take(trace.len() as int));
    if !aborted(trace) {
        assert(pipeline().take(5) =~= pipeline());
    }
}

/// The session of a command in natural-language mode dispatches at least
/// the first two stages of the pipeline: only a stage that the
/// version-control actor answers can end it, and no route takes the first
/// stage. Where it dispatches fewer than five, its last step gave it up.
pub proof fn lemma_marked_session_length(command: Seq<char>, trace: Seq<StepView>)
    requires
        natural_language(command),
        session_admits(command, trace),
    ensures
        2 <= trace.len() <= 5,
        trace.len() < 5 ==> aborted(trace),
{
    lemma_marked_session_follows_pipeline(command, trace);
    lemma_pipeline_routes();
    if trace.len() < 5 {
        let last = trace.last();
        assert(last == trace[trace.len() - 1]);
        assert(last.sub_task == dispatched_of(trace)[trace.len() - 1]);
        assert(last.sub_task == pipeline()[trace.len() - 1]);
        assert(step_admits(last));
        lemma_only_version_control_gives_up(last);
    }
}

} // verus!
