//! From a command to the subtasks that are run for it.
//!
//! The planner capability proposes a decomposition. Where the planner is
//! absent or its call fails, the command itself is the only subtask. A
//! command in natural-language mode gets the dependency check in front of
//! what the planner proposed, and is then run through a fixed pipeline in
//! place of whatever was planned.

use crate::routing::INSTALL_SENTINEL;
use crate::text::{has_prefix, starts_with, texts};
use vstd::prelude::*;

verus! {

/// A command that begins with this is in natural-language mode.
pub const NL_MARKER: &'static str = "--nl";

/// First stage of the natural-language pipeline.
pub const STAGE_PARSE: &'static str = "parse_nl";

/// Second stage of the natural-language pipeline.
pub const STAGE_INIT: &'static str = "git_init";

/// Third stage of the natural-language pipeline.
pub const STAGE_ADD: &'static str = "add_initial_files";

/// Fourth stage of the natural-language pipeline.
pub const STAGE_COMMIT: &'static str = "commit";

/// Last stage of the natural-language pipeline.
pub const STAGE_PUSH: &'static str = "github_push";

/// Whether the command is in natural-language mode.
pub open spec fn natural_language(command: Seq<char>) -> bool {
    has_prefix(command, NL_MARKER@)
}

/// The fixed pipeline of natural-language mode.
pub open spec fn pipeline() -> Seq<Seq<char>> {
    seq![STAGE_PARSE@, STAGE_INIT@, STAGE_ADD@, STAGE_COMMIT@, STAGE_PUSH@]
}

/// What the planner answered, as character sequences.
pub open spec fn decomposition_view(decomposition: Option<Vec<String>>) -> Option<Seq<Seq<char>>> {
    match decomposition {
        Some(tasks) => Some(texts(tasks@)),
        None => None,
    }
}

/// The planner's decomposition as it came, or the command alone where
/// the planner is absent or its call failed.
pub open spec fn decomposed(command: Seq<char>, decomposition: Option<Seq<Seq<char>>>) -> Seq<
    Seq<char>,
> {
    match decomposition {
        Some(tasks) => tasks,
        None => seq![command],
    }
}

/// The plan for a command. In natural-language mode it is the dependency
/// check and then the decomposition as it came, also where that holds no
/// subtask. Otherwise it is the decomposition, and the command alone
/// where the decomposition holds no subtask. So a plan is never empty.
pub open spec fn plan_for(command: Seq<char>, decomposition: Option<Seq<Seq<char>>>) -> Seq<
    Seq<char>,
> {
    let tasks = decomposed(command, decomposition);
    if natural_language(command) {
        seq![INSTALL_SENTINEL@] + tasks
    } else if tasks.len() > 0 {
        tasks
    } else {
        seq![command]
    }
}

/// The subtasks that are run: the pipeline in natural-language mode,
/// whatever was planned; the plan otherwise.
pub open spec fn subtasks_for(command: Seq<char>, planned: Seq<Seq<char>>) -> Seq<Seq<char>> {
    if natural_language(command) {
        pipeline()
    } else {
        planned
    }
}

/// The subtasks that are run for a command, given the planner's answer.
pub open spec fn schedule_for(command: Seq<char>, decomposition: Option<Seq<Seq<char>>>) -> Seq<
    Seq<char>,
> {
    subtasks_for(command, plan_for(command, decomposition))
}

/// Whether the command is in natural-language mode.
pub fn is_natural_language(command: &str) -> (marked: bool)
    ensures
        marked == natural_language(command@),
{
    starts_with(command, NL_MARKER)
}

/// Builds the plan for a command from the planner's answer; `None` stands
/// for a planner that is absent or whose call failed.
pub fn plan_from(command: String, decomposition: Option<Vec<String>>) -> (plan: Vec<String>)
    ensures
        texts(plan@) == plan_for(command@, decomposition_view(decomposition)),
        plan.len() > 0,
{
    let marked = is_natural_language(command.as_str());
    let mut plan: Vec<String> = match decomposition {
        Some(tasks) => {
            if marked || tasks.len() > 0 {
                tasks
            } else {
                vec![command]
            }
        },
        None => vec![command],
    };
    if marked {
        assert(texts(plan@) =~= decomposed(command@, decomposition_view(decomposition)));
        let ghost before = plan@;
        plan.insert(0, INSTALL_SENTINEL.to_owned());
        assert(texts(plan@) =~= seq![INSTALL_SENTINEL@] + texts(before));
    } else {
        assert(texts(plan@) =~= plan_for(command@, decomposition_view(decomposition)));
    }
    plan
}

/// The fixed pipeline of natural-language mode.
pub fn canonical_pipeline() -> (stages: Vec<String>)
    ensures
        texts(stages@) == pipeline(),
{
    let stages = vec![
        STAGE_PARSE.to_owned(),
        STAGE_INIT.to_owned(),
        STAGE_ADD.to_owned(),
        STAGE_COMMIT.to_owned(),
        STAGE_PUSH.to_owned(),
    ];
    assert(texts(stages@) =~= pipeline());
    stages
}

/// Replaces the plan by the pipeline where the command is in
/// natural-language mode, and keeps it otherwise.
pub fn apply_override(command: &str, planned: Vec<String>) -> (subtasks: Vec<String>)
    ensures
        texts(subtasks@) == subtasks_for(command@, texts(planned@)),
{
    if is_natural_language(command) {
        canonical_pipeline()
    } else {
        planned
    }
}

} // verus!
