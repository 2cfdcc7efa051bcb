//! Log files and log directories of the user.

use super::{join_all, report, reported, slices, under_home, Candidate, CandidateView, Scanner};
use crate::decimal::{decimal, decimal_string};
use crate::paths::{file_name_or, is_under_any, name_or, under_any};
use crate::plugin::traits::texts;
use crate::plugin::{ScanConfig, ScanConfigView, ScanResult, ScanResultView, ScannerCategory};
use crate::safety::{classify, SafetyChecker};
use crate::text::concat;
use vstd::prelude::*;

verus! {

/// Finds logs under the user's library.
pub struct LogScanner {
    log_dirs: Vec<String>,
    safety_checker: SafetyChecker,
}

/// The log directories, relative to the home directory.
pub open spec fn log_locations() -> Seq<Seq<char>> {
    seq!["Library/Logs"@]
}

impl LogScanner {
    /// The directories under which the scanner looks.
    pub closed spec fn roots(&self) -> Seq<Seq<char>> {
        texts(self.log_dirs@)
    }

    /// The scanner for the home directory that the environment names.
    pub fn new() -> (r: Self)
        ensures
            exists|home: Seq<char>| r.roots() == under_home(home, log_locations()),
    {
        let home = super::home_or_root();
        let r = Self::with_home(home.as_str());
        assert(r.roots() == under_home(home@, log_locations()));
        r
    }

    /// The scanner for the home directory `home`.
    pub fn with_home(home: &str) -> (r: Self)
        ensures
            r.roots() == under_home(home@, log_locations()),
    {
        let mut rels: Vec<&'static str> = Vec::new();
        rels.push("Library/Logs");
        assert(slices(rels@) =~= log_locations());
        LogScanner { log_dirs: join_all(home, &rels), safety_checker: SafetyChecker::new() }
    }

    /// The directories under which the scanner looks.
    pub fn locations(&self) -> (r: &Vec<String>)
        ensures
            texts(r@) == self.roots(),
    {
        &self.log_dirs
    }

    pub fn is_available(&self) -> (r: bool)
        ensures
            r,
    {
        true
    }
}

impl Scanner for LogScanner {
    open spec fn ident(&self) -> Seq<char> {
        "system_logs"@
    }

    open spec fn title(&self) -> Seq<char> {
        "System Logs"@
    }

    open spec fn group(&self) -> ScannerCategory {
        ScannerCategory::System
    }

    /// A file or a directory that is not excluded and holds at least the
    /// smallest size is a finding; a file counts as one file.
    open spec fn finding_for(
        &self,
        config: ScanConfigView,
        candidate: CandidateView,
        index: nat,
    ) -> Option<ScanResultView> {
        if is_under_any(candidate.path, config.excluded_paths) || (!candidate.is_dir
            && !candidate.is_file) || candidate.size < config.min_size {
            None
        } else {
            Some(
                reported(
                    "log_"@ + decimal(index),
                    name_or(candidate.path, "unknown"@),
                    candidate,
                    if candidate.is_dir {
                        candidate.file_count
                    } else {
                        1
                    },
                    classify(candidate.path),
                    ScannerCategory::System,
                    None,
                ),
            )
        }
    }

    open spec fn cap(&self) -> usize {
        super::MAX_FINDINGS
    }

    fn id(&self) -> (r: &'static str) {
        "system_logs"
    }

    fn name(&self) -> (r: &'static str) {
        "System Logs"
    }

    fn category(&self) -> (r: ScannerCategory) {
        ScannerCategory::System
    }

    fn estimated_secs(&self) -> (r: u64) {
        5
    }

    fn accept(&self, config: &ScanConfig, candidate: &Candidate, index: usize) -> (r: Option<
        ScanResult,
    >) {
        if under_any(candidate.path.as_str(), &config.excluded_paths) || (!candidate.is_dir
            && !candidate.is_file) || candidate.size < config.min_size {
            return None;
        }
        let id = concat("log_", decimal_string(index as u64).as_str());
        let name = file_name_or(candidate.path.as_str(), "unknown");
        let level = self.safety_checker.check_path(candidate.path.as_str());
        let file_count = if candidate.is_dir {
            candidate.file_count
        } else {
            1
        };
        Some(report(id, name, candidate, file_count, level, ScannerCategory::System, None))
    }

    fn limit(&self) -> (r: usize) {
        super::MAX_FINDINGS
    }
}

impl Default for LogScanner {
    fn default() -> Self {
        Self::new()
    }
}

} // verus!
