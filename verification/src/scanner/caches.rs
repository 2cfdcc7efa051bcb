//! Cache directories of the system and of the development tools.

use super::{join_all, report, reported, slices, under_home, Candidate, CandidateView, Scanner};
use crate::decimal::{decimal, decimal_string};
use crate::paths::{file_name_or, is_under_any, name_or, under_any};
use crate::plugin::traits::texts;
use crate::plugin::{ScanConfig, ScanConfigView, ScanResult, ScanResultView, ScannerCategory};
use crate::safety::{classify, SafetyChecker};
use crate::text::concat;
use vstd::prelude::*;

verus! {

/// Finds cache directories under the user's library.
pub struct CacheScanner {
    cache_dirs: Vec<String>,
    safety_checker: SafetyChecker,
}

/// The cache directories, relative to the home directory.
pub open spec fn cache_locations() -> Seq<Seq<char>> {
    seq!["Library/Caches"@, "Library/Developer/Xcode/DerivedData"@]
}

impl CacheScanner {
    /// The directories under which the scanner looks.
    pub closed spec fn roots(&self) -> Seq<Seq<char>> {
        texts(self.cache_dirs@)
    }

    /// The scanner for the home directory that the environment names.
    pub fn new() -> (r: Self)
        ensures
            exists|home: Seq<char>| r.roots() == under_home(home, cache_locations()),
    {
        let home = super::home_or_root();
        let r = Self::with_home(home.as_str());
        assert(r.roots() == under_home(home@, cache_locations()));
        r
    }

    /// The scanner for the home directory `home`.
    pub fn with_home(home: &str) -> (r: Self)
        ensures
            r.roots() == under_home(home@, cache_locations()),
    {
        let mut rels: Vec<&'static str> = Vec::new();
        rels.push("Library/Caches");
        rels.push("Library/Developer/Xcode/DerivedData");
        assert(slices(rels@) =~= cache_locations());
        CacheScanner { cache_dirs: join_all(home, &rels), safety_checker: SafetyChecker::new() }
    }

    /// The directories under which the scanner looks.
    pub fn locations(&self) -> (r: &Vec<String>)
        ensures
            texts(r@) == self.roots(),
    {
        &self.cache_dirs
    }

    pub fn is_available(&self) -> (r: bool)
        ensures
            r,
    {
        true
    }
}

impl Scanner for CacheScanner {
    open spec fn ident(&self) -> Seq<char> {
        "system_caches"@
    }

    open spec fn title(&self) -> Seq<char> {
        "System Caches"@
    }

    open spec fn group(&self) -> ScannerCategory {
        ScannerCategory::System
    }

    /// A directory that is not excluded and holds at least the smallest size
    /// is a finding, classified by the safety policy.
    open spec fn finding_for(
        &self,
        config: ScanConfigView,
        candidate: CandidateView,
        index: nat,
    ) -> Option<ScanResultView> {
        if !candidate.is_dir || is_under_any(candidate.path, config.excluded_paths)
            || candidate.size < config.min_size {
            None
        } else {
            Some(
                reported(
                    "cache_"@ + decimal(index),
                    name_or(candidate.path, "unknown"@),
                    candidate,
                    candidate.file_count,
                    classify(candidate.path),
                    ScannerCategory::System,
                    Some("system_caches"@),
                ),
            )
        }
    }

    open spec fn cap(&self) -> usize {
        super::MAX_FINDINGS
    }

    fn id(&self) -> (r: &'static str) {
        "system_caches"
    }

    fn name(&self) -> (r: &'static str) {
        "System Caches"
    }

    fn category(&self) -> (r: ScannerCategory) {
        ScannerCategory::System
    }

    fn estimated_secs(&self) -> (r: u64) {
        5
    }

    fn accept(&self, config: &ScanConfig, candidate: &Candidate, index: usize) -> (r: Option<
        ScanResult,
    >) {
        if !candidate.is_dir || under_any(candidate.path.as_str(), &config.excluded_paths)
            || candidate.size < config.min_size {
            return None;
        }
        let id = concat("cache_", decimal_string(index as u64).as_str());
        let name = file_name_or(candidate.path.as_str(), "unknown");
        let level = self.safety_checker.check_path(candidate.path.as_str());
        Some(
            report(
                id,
                name,
                candidate,
                candidate.file_count,
                level,
                ScannerCategory::System,
                Some("system_caches"),
            ),
        )
    }

    fn limit(&self) -> (r: usize) {
        super::MAX_FINDINGS
    }
}

impl Default for CacheScanner {
    fn default() -> Self {
        Self::new()
    }
}

} // verus!
