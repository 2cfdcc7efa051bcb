//! The user's trash.

use super::{join_all, report, reported, slices, under_home, Candidate, CandidateView, Scanner};
use crate::plugin::traits::texts;
use crate::plugin::{
    SafetyLevel, ScanConfig, ScanConfigView, ScanResult, ScanResultView, ScannerCategory,
};
use vstd::prelude::*;

verus! {

/// Reports the trash as one finding.
pub struct TrashScanner {
    trash_paths: Vec<String>,
}

/// The trash directories, relative to the home directory.
pub open spec fn trash_locations() -> Seq<Seq<char>> {
    seq![".Trash"@]
}

impl TrashScanner {
    /// The directories that the scanner measures.
    pub closed spec fn roots(&self) -> Seq<Seq<char>> {
        texts(self.trash_paths@)
    }

    /// The scanner for the home directory that the environment names.
    pub fn new() -> (r: Self)
        ensures
            exists|home: Seq<char>| r.roots() == under_home(home, trash_locations()),
    {
        let home = super::home_or_root();
        let r = Self::with_home(home.as_str());
        assert(r.roots() == under_home(home@, trash_locations()));
        r
    }

    /// The scanner for the home directory `home`.
    pub fn with_home(home: &str) -> (r: Self)
        ensures
            r.roots() == under_home(home@, trash_locations()),
    {
        let mut rels: Vec<&'static str> = Vec::new();
        rels.push(".Trash");
        assert(slices(rels@) =~= trash_locations());
        TrashScanner { trash_paths: join_all(home, &rels) }
    }

    /// The directories that the scanner measures.
    pub fn locations(&self) -> (r: &Vec<String>)
        ensures
            texts(r@) == self.roots(),
    {
        &self.trash_paths
    }

    pub fn is_available(&self) -> (r: bool)
        ensures
            r,
    {
        true
    }
}

impl Scanner for TrashScanner {
    open spec fn ident(&self) -> Seq<char> {
        "trash"@
    }

    open spec fn title(&self) -> Seq<char> {
        "Trash"@
    }

    open spec fn group(&self) -> ScannerCategory {
        ScannerCategory::Trash
    }

    /// A trash directory that holds anything is a finding, safe to delete.
    open spec fn finding_for(
        &self,
        config: ScanConfigView,
        candidate: CandidateView,
        index: nat,
    ) -> Option<ScanResultView> {
        if candidate.size == 0 {
            None
        } else {
            Some(
                reported(
                    "trash_main"@,
                    "Trash"@,
                    candidate,
                    candidate.file_count,
                    SafetyLevel::Safe,
                    ScannerCategory::Trash,
                    Some("trash"@),
                ),
            )
        }
    }

    open spec fn cap(&self) -> usize {
        super::MAX_FINDINGS
    }

    fn id(&self) -> (r: &'static str) {
        "trash"
    }

    fn name(&self) -> (r: &'static str) {
        "Trash"
    }

    fn category(&self) -> (r: ScannerCategory) {
        ScannerCategory::Trash
    }

    fn estimated_secs(&self) -> (r: u64) {
        5
    }

    fn accept(&self, config: &ScanConfig, candidate: &Candidate, index: usize) -> (r: Option<
        ScanResult,
    >) {
        if candidate.size == 0 {
            return None;
        }
        Some(
            report(
                String::from_str("trash_main"),
                String::from_str("Trash"),
                candidate,
                candidate.file_count,
                SafetyLevel::Safe,
                ScannerCategory::Trash,
                Some("trash"),
            ),
        )
    }

    fn limit(&self) -> (r: usize) {
        super::MAX_FINDINGS
    }
}

impl Default for TrashScanner {
    fn default() -> Self {
        Self::new()
    }
}

} // verus!
