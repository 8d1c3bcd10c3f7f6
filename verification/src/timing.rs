//! The latency budgets of the pipeline and the check of a measured stage
//! against them.
//!
//! The check reports and never aborts: it says what the budget of a stage is
//! and whether a measured latency exceeds it.

use crate::text::str_eq;
use vstd::prelude::*;

verus! {

/// Budget of one poll of the telemetry source, in milliseconds.
pub const RSPROX_POLL_MS: u64 = 50;

/// Budget of perception, in milliseconds.
pub const PERCEPTION_MS: u64 = 100;

/// Budget of the decision, in milliseconds.
pub const DECISION_MS: u64 = 200;

/// Budget of execution, in milliseconds.
pub const EXECUTION_MS: u64 = 150;

/// Budget of verification, in milliseconds.
pub const VERIFICATION_MS: u64 = 50;

/// Budget of the whole pipeline, in milliseconds.
pub const TOTAL_BUDGET_MS: u64 = 600;

/// The budget of one named stage.
#[derive(Debug, Clone, Copy)]
pub struct StageBudget {
    pub stage: &'static str,
    pub budget_ms: u64,
}

/// The measured latency of a stage against its budget.
#[derive(Debug, Clone)]
pub struct PipelineMetrics {
    pub stage_name: String,
    pub latency_ms: u64,
    pub budget_ms: u64,
    pub over_budget: bool,
}

impl PipelineMetrics {
    /// `over_budget` says that the latency exceeds the budget, and nothing
    /// else.
    pub open spec fn wf(&self) -> bool {
        self.over_budget == (self.latency_ms > self.budget_ms)
    }
}

/// The budgets, in lookup order.
pub open spec fn budget_table() -> Seq<StageBudget> {
    seq![
        StageBudget { stage: "rsprox_poll", budget_ms: RSPROX_POLL_MS },
        StageBudget { stage: "perception", budget_ms: PERCEPTION_MS },
        StageBudget { stage: "decision", budget_ms: DECISION_MS },
        StageBudget { stage: "execution", budget_ms: EXECUTION_MS },
        StageBudget { stage: "verification", budget_ms: VERIFICATION_MS },
        StageBudget { stage: "total", budget_ms: TOTAL_BUDGET_MS },
    ]
}

/// The budget of the first entry at or after index `from` that carries the
/// stage's name, or the budget of the whole pipeline.
pub open spec fn budget_from(table: Seq<StageBudget>, stage: Seq<char>, from: int) -> u64
    decreases table.len() - from,
{
    if from < 0 || from >= table.len() {
        TOTAL_BUDGET_MS
    } else if table[from].stage@ == stage {
        table[from].budget_ms
    } else {
        budget_from(table, stage, from + 1)
    }
}

/// The budget of a stage: that of its entry in the table, or that of the
/// whole pipeline for a name the table does not hold.
pub open spec fn stage_budget(stage: Seq<char>) -> u64 {
    budget_from(budget_table(), stage, 0)
}

/// What checking a stage's latency yields: the stage's name, the latency,
/// the stage's budget, and whether the latency exceeds the budget.
pub open spec fn timing_of(metrics: PipelineMetrics, stage: Seq<char>, latency_ms: u64) -> bool {
    &&& metrics.stage_name@ == stage
    &&& metrics.latency_ms == latency_ms
    &&& metrics.budget_ms == stage_budget(stage)
    &&& metrics.over_budget == (latency_ms > stage_budget(stage))
}

/// The table of budgets.
pub fn timing_budgets() -> (table: Vec<StageBudget>)
    ensures
        table@ == budget_table(),
{
    let table = vec![
        StageBudget { stage: "rsprox_poll", budget_ms: RSPROX_POLL_MS },
        StageBudget { stage: "perception", budget_ms: PERCEPTION_MS },
        StageBudget { stage: "decision", budget_ms: DECISION_MS },
        StageBudget { stage: "execution", budget_ms: EXECUTION_MS },
        StageBudget { stage: "verification", budget_ms: VERIFICATION_MS },
        StageBudget { stage: "total", budget_ms: TOTAL_BUDGET_MS },
    ];
    assert(table@ =~= budget_table());
    table
}

/// Looks up the budget of a stage.
pub fn budget_for(stage: &str) -> (budget_ms: u64)
    ensures
        budget_ms == stage_budget(stage@),
{
    let table = timing_budgets();
    let mut i: usize = 0;
    while i < table.len()
        invariant
            i <= table.len(),
            stage_budget(stage@) == budget_from(table@, stage@, i as int),
        decreases table.len() - i,
    {
        if str_eq(table[i].stage, stage) {
            return table[i].budget_ms;
        }
        i = i + 1;
    }
    TOTAL_BUDGET_MS
}

/// Checks a measured stage latency against the stage's budget.
pub fn check_stage_timing(stage: &str, latency_ms: u64) -> (metrics: PipelineMetrics)
    ensures
        timing_of(metrics, stage@, latency_ms),
        metrics.wf(),
{
    let budget = budget_for(stage);
    PipelineMetrics {
        stage_name: stage.to_owned(),
        latency_ms,
        budget_ms: budget,
        over_budget: latency_ms > budget,
    }
}

/// Every budget is one of the table's, so none exceeds that of the whole
/// pipeline and none is zero.
pub proof fn lemma_budget_bounds(stage: Seq<char>)
    ensures
        0 < stage_budget(stage) <= TOTAL_BUDGET_MS,
{
    reveal_with_fuel(budget_from, 8);
}

/// The budgets of the six named stages.
pub proof fn lemma_named_budgets()
    ensures
        stage_budget("rsprox_poll"@) == 50,
        stage_budget("perception"@) == 100,
        stage_budget("decision"@) == 200,
        stage_budget("execution"@) == 150,
        stage_budget("verification"@) == 50,
        stage_budget("total"@) == 600,
{
    reveal_with_fuel(budget_from, 8);
    reveal_strlit("rsprox_poll");
    reveal_strlit("perception");
    reveal_strlit("decision");
    reveal_strlit("execution");
    reveal_strlit("verification");
    reveal_strlit("total");
    assert("rsprox_poll"@.len() == 11);
    assert("perception"@.len() == 10);
    assert("decision"@.len() == 8);
    assert("execution"@.len() == 9);
    assert("verification"@.len() == 12);
    assert("total"@.len() == 5);
}

/// A stage that the table does not name has the budget of the whole
/// pipeline.
pub proof fn lemma_unnamed_budget(stage: Seq<char>)
    requires
        forall|i: int| 0 <= i < budget_table().len() ==> (#[trigger] budget_table()[i]).stage@ != stage,
    ensures
        stage_budget(stage) == TOTAL_BUDGET_MS,
{
    reveal_with_fuel(budget_from, 8);
}

/// The check is a function of its inputs: two outcomes for the same stage
/// and latency agree in every field, and each says `over_budget` exactly
/// when the latency exceeds the budget.
pub proof fn lemma_timing_deterministic(
    first: PipelineMetrics,
    second: PipelineMetrics,
    stage: Seq<char>,
    latency_ms: u64,
)
    requires
        timing_of(first, stage, latency_ms),
        timing_of(second, stage, latency_ms),
    ensures
        first.stage_name@ == second.stage_name@,
        first.latency_ms == second.latency_ms,
        first.budget_ms == second.budget_ms,
        first.over_budget == second.over_budget,
        first.over_budget == (first.latency_ms > first.budget_ms),
{
}

} // verus!
