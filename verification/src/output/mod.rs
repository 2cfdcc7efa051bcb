//! The documents that the command line writes: results of a scan, a plan
//! and an execution.

pub mod documents;
pub mod json_schema;

pub use json_schema::{
    CategoryExecutionResult, CategoryPlanResult, CategoryScanResult, ExecutionResult,
    ExecutionStatus, FailedItem, PlanItem, PlanResult, ScanItem, ScanResult,
};
