//! What the interactive tool holds between two frames.

pub mod app_state;
pub mod apps;
pub mod list;
pub mod modes;
pub mod scan;
pub mod space_lens;

pub use app_state::App;
pub use apps::{AppsModeState, UninstallResultDisplay};
pub use list::ListState;
pub use modes::{AppMode, SortMode};
pub use scan::{
    CleanResultDisplay, ScanMessage, ScanMessageView, ScanProgress, ScanProgressView, ScannerInfo,
};
pub use space_lens::{
    CachedScan, DeleteResult, FolderEntry, FolderEntryView, SpaceLensMode, SpaceLensState,
};
