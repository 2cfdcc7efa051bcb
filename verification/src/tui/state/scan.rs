//! Messages of a running scan and the progress they add up to.

use crate::plugin::{ScanResult, ScannerCategory};
use vstd::prelude::*;

verus! {

/// What a scan job tells the consumer.
#[derive(Debug)]
pub enum ScanMessage {
    /// A scanner began its work.
    ScannerStart { name: String },
    /// A scanner looks at this path.
    ScanningPath { path: String },
    /// A scanner accepted a finding.
    ItemFound { scanner_id: String, item: ScanResult },
    /// A scanner has finished.
    ScannerDone { scanner_id: String, name: String, category: ScannerCategory },
    /// Every scanner of the session has finished.
    ScanComplete,
}

/// A message, with its texts as character sequences.
pub enum ScanMessageView {
    ScannerStart { name: Seq<char> },
    ScanningPath { path: Seq<char> },
    ItemFound { scanner_id: Seq<char>, item: crate::plugin::ScanResultView },
    ScannerDone { scanner_id: Seq<char>, name: Seq<char>, category: ScannerCategory },
    ScanComplete,
}

impl View for ScanMessage {
    type V = ScanMessageView;

    open spec fn view(&self) -> ScanMessageView {
        match self {
            ScanMessage::ScannerStart { name } => ScanMessageView::ScannerStart { name: name@ },
            ScanMessage::ScanningPath { path } => ScanMessageView::ScanningPath { path: path@ },
            ScanMessage::ItemFound { scanner_id, item } => ScanMessageView::ItemFound {
                scanner_id: scanner_id@,
                item: item@,
            },
            ScanMessage::ScannerDone { scanner_id, name, category } => {
                ScanMessageView::ScannerDone {
                    scanner_id: scanner_id@,
                    name: name@,
                    category: *category,
                }
            },
            ScanMessage::ScanComplete => ScanMessageView::ScanComplete,
        }
    }
}

/// A scanner that the user can switch on or off.
#[derive(Debug)]
pub struct ScannerInfo {
    pub id: String,
    pub name: String,
    pub enabled: bool,
}

/// How far a scan has come.
#[derive(Debug)]
pub struct ScanProgress {
    pub current_scanner: String,
    pub current_path: Option<String>,
    pub scanners_done: usize,
    pub total_scanners: usize,
    pub active_scanners: usize,
}

/// Progress, with its texts as character sequences.
pub struct ScanProgressView {
    pub current_scanner: Seq<char>,
    pub current_path: Option<Seq<char>>,
    pub scanners_done: usize,
    pub total_scanners: usize,
    pub active_scanners: usize,
}

impl View for ScanProgress {
    type V = ScanProgressView;

    open spec fn view(&self) -> ScanProgressView {
        ScanProgressView {
            current_scanner: self.current_scanner@,
            current_path: match self.current_path {
                Some(p) => Some(p@),
                None => None,
            },
            scanners_done: self.scanners_done,
            total_scanners: self.total_scanners,
            active_scanners: self.active_scanners,
        }
    }
}

impl Default for ScanProgress {
    fn default() -> (r: Self)
        ensures
            r.current_scanner@.len() == 0,
            r.current_path is None,
            r.scanners_done == 0,
            r.total_scanners == 0,
            r.active_scanners == 0,
    {
        ScanProgress {
            current_scanner: String::new(),
            current_path: None,
            scanners_done: 0,
            total_scanners: 0,
            active_scanners: 0,
        }
    }
}

/// What the result screen shows of a clean-up.
#[derive(Debug, Clone, Copy)]
pub struct CleanResultDisplay {
    pub success_count: usize,
    pub failed_count: usize,
    pub total_freed: u64,
    pub duration_ms: u64,
}

} // verus!
