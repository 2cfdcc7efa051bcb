//! The plugin model: what a scanner finds, how findings are grouped, and the
//! settings of a scan and of a clean-up.

pub mod registry;
pub mod traits;

pub use registry::{CategoryScanResult, CategoryView, PluginRegistry, ReportView, ScanReport};
pub use traits::{
    CleanConfig, CleanResult, SafetyLevel, ScanConfig, ScanConfigView, ScanResult,
    ScanResultView, ScannerCategory,
};
