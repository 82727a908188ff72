//! The self-repair unit: what is done about a failed subtask.
//!
//! A failure is always recorded as an anomaly. It is then classified by
//! what its output holds. A classified failure is answered with one
//! request for a new plan, and where that request is answered the rest of
//! the session is given up. Nothing is done about a success.

use crate::orchestrator::{AgentResult, Outcome};
use crate::outcome::reply_view;
use crate::text::{has_infix, includes, join};
use vstd::prelude::*;

verus! {

/// An output that holds this reports a missing dependency.
pub const IMPORT_ERROR_MARKER: &'static str = "ImportError";

/// An output that holds this reports a failed natural-language parse.
pub const PARSE_FAIL_MARKER: &'static str = "parse fail";

/// What the debug agent is asked for after a missing dependency.
pub const STRATEGY_DEPENDENCIES: &'static str = "install missing deps and retry";

/// What the debug agent is asked for after a failed parse.
pub const STRATEGY_PARSE: &'static str = "replan NL parse";

/// What stands before the output in the anomaly that is recorded.
pub const ANOMALY_LABEL: &'static str = "Anomaly: ";

/// What stands before the new plan in the diagnostic that is emitted.
pub const REPLAN_LABEL: &'static str = "Re-plan: ";

/// Key of the one entry of an anomaly's payload.
pub const PAYLOAD_KEY: &'static str = "type";

/// Value of the one entry of an anomaly's payload.
pub const PAYLOAD_ERROR: &'static str = "error";

/// What kind of failure an output reports.
#[derive(Clone, Copy, Debug, PartialEq, Eq, Structural)]
pub enum FailureClass {
    /// A dependency could not be resolved.
    DependencyResolution,
    /// A natural-language command could not be parsed.
    NlParse,
    /// Neither of the above.
    Unclassified,
}

/// The class of a failing output. The dependency marker is looked for
/// first.
pub open spec fn class_of(output: Seq<char>) -> FailureClass {
    if has_infix(output, IMPORT_ERROR_MARKER@) {
        FailureClass::DependencyResolution
    } else if has_infix(output, PARSE_FAIL_MARKER@) {
        FailureClass::NlParse
    } else {
        FailureClass::Unclassified
    }
}

/// The alternative strategy for a class of failure, if it has one.
pub open spec fn strategy_of(class: FailureClass) -> Option<Seq<char>> {
    match class {
        FailureClass::DependencyResolution => Some(STRATEGY_DEPENDENCIES@),
        FailureClass::NlParse => Some(STRATEGY_PARSE@),
        FailureClass::Unclassified => None,
    }
}

/// The capability calls that a result gives rise to.
pub struct RepairPlan {
    /// The anomaly to record in the memory store, if any.
    pub anomaly: Option<String>,
    /// The strategy to hand to the debug agent, if any.
    pub strategy: Option<&'static str>,
}

/// A `RepairPlan` as plain values.
pub struct RepairPlanView {
    pub anomaly: Option<Seq<char>>,
    pub strategy: Option<Seq<char>>,
}

impl View for RepairPlan {
    type V = RepairPlanView;

    open spec fn view(&self) -> RepairPlanView {
        RepairPlanView {
            anomaly: reply_view(self.anomaly),
            strategy: match self.strategy {
                Some(text) => Some(text@),
                None => None,
            },
        }
    }
}

/// The calls that a result gives rise to: none after a success; after a
/// failure the anomaly, and the request for a new plan where the failure
/// is classified.
pub open spec fn repair_plan_for(result: Outcome) -> RepairPlanView {
    if result.status {
        RepairPlanView { anomaly: None, strategy: None }
    } else {
        RepairPlanView {
            anomaly: Some(ANOMALY_LABEL@ + result.output),
            strategy: strategy_of(class_of(result.output)),
        }
    }
}

/// Whether a new plan is requested for this result.
pub open spec fn replans(result: Outcome) -> bool {
    repair_plan_for(result).strategy is Some
}

/// Whether the session is given up after this result: a new plan was
/// requested and the request was answered. `replan` is the answer, `None`
/// where the request failed.
pub open spec fn aborts(result: Outcome, replan: Option<Seq<char>>) -> bool {
    replans(result) && replan is Some
}

/// The diagnostic that is emitted after this result, if any.
pub open spec fn diagnostic_for(result: Outcome, replan: Option<Seq<char>>) -> Option<Seq<char>> {
    if aborts(result, replan) {
        Some(REPLAN_LABEL@ + replan->0)
    } else {
        None
    }
}

/// How the log of diagnostics changes over a repair or a session: by one
/// line that holds a new plan where the session was given up, not at all
/// otherwise.
pub open spec fn diagnostics_grow(
    before: Seq<Seq<char>>,
    after: Seq<Seq<char>>,
    aborted: bool,
) -> bool {
    if aborted {
        exists|replan: Seq<char>| after == before.push(#[trigger] (REPLAN_LABEL@ + replan))
    } else {
        after == before
    }
}

/// Classifies a failing output.
pub fn classify_failure(output: &str) -> (class: FailureClass)
    ensures
        class == class_of(output@),
{
    if includes(output, IMPORT_ERROR_MARKER) {
        FailureClass::DependencyResolution
    } else if includes(output, PARSE_FAIL_MARKER) {
        FailureClass::NlParse
    } else {
        FailureClass::Unclassified
    }
}

/// The alternative strategy for a class of failure, if it has one.
pub fn alternative_strategy(class: FailureClass) -> (strategy: Option<&'static str>)
    ensures
        match strategy {
            Some(text) => strategy_of(class) == Some(text@),
            None => strategy_of(class) is None,
        },
{
    match class {
        FailureClass::DependencyResolution => Some(STRATEGY_DEPENDENCIES),
        FailureClass::NlParse => Some(STRATEGY_PARSE),
        FailureClass::Unclassified => None,
    }
}

/// Decides which capability calls a result gives rise to.
pub fn plan_repair(result: &AgentResult) -> (plan: RepairPlan)
    ensures
        plan@ == repair_plan_for(result@),
{
    if result.status {
        RepairPlan { anomaly: None, strategy: None }
    } else {
        RepairPlan {
            anomaly: Some(join(ANOMALY_LABEL, result.output.as_str())),
            strategy: alternative_strategy(classify_failure(result.output.as_str())),
        }
    }
}

/// Concludes a repair from the debug agent's answer; `None` stands for a
/// request that was not made or that failed. The session is given up
/// exactly where a diagnostic is returned.
pub fn verdict(result: &AgentResult, replan: Option<String>) -> (diagnostic: Option<String>)
    ensures
        reply_view(diagnostic) == diagnostic_for(result@, reply_view(replan)),
{
    let plan = plan_repair(result);
    match (plan.strategy, replan) {
        (Some(_), Some(text)) => Some(join(REPLAN_LABEL, text.as_str())),
        _ => None,
    }
}

} // verus!
