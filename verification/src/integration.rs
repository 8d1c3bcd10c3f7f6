//! The integration layer in one place: the snapshot schema, the validators,
//! the lookups and the pipeline timing, under the paths that callers use.

pub use crate::binary32::{Binary32, Reading};
pub use crate::intent::{
    check_intent, validate_intent, ActionIntent, ActionTarget, GatingConfig,
};
pub use crate::phase::infer_tutorial_phase;
pub use crate::region::infer_region;
pub use crate::schema::{
    AccountInfo, ActivityInfo, Bounds, ClientInfo, CombatInfo, CuesInfo, DerivedInfo,
    InventoryItem, LocationInfo, NpcInfo, OcrEntry, ResourceInfo, RoiInfo, RuneliteData,
    SkillInfo, SnapshotSchema, UiElement, UiInfo, WorldCoord,
};
pub use crate::snapshot::{check_snapshot, merge_snapshot_data, validate_snapshot};
pub use crate::timing::{
    check_stage_timing, timing_budgets, PipelineMetrics, StageBudget, DECISION_MS, EXECUTION_MS,
    PERCEPTION_MS, RSPROX_POLL_MS, TOTAL_BUDGET_MS, VERIFICATION_MS,
};
pub use crate::validation::ValidationResult;
