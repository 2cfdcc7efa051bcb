//! Build outputs and package caches of software projects.

use super::{join_all, report, reported, slices, under_home, Candidate, CandidateView, Scanner};
use crate::decimal::{decimal, decimal_string};
use crate::paths::{file_name_or, is_under_any, join, joined, name_or, under_any};
use crate::plugin::traits::texts;
use crate::plugin::{ScanConfig, ScanConfigView, ScanResult, ScanResultView, ScannerCategory};
use crate::safety::{classify, SafetyChecker};
use crate::text::concat4;
use vstd::prelude::*;

verus! {

/// Finds directories that builds and package managers leave in projects.
pub struct DevJunkScanner {
    patterns: Vec<(&'static str, &'static str)>,
    search_roots: Vec<String>,
    safety_checker: SafetyChecker,
}

/// The directories looked for: name, and the pattern that finds them below
/// a root.
pub open spec fn junk_patterns() -> Seq<(Seq<char>, Seq<char>)> {
    seq![
        ("node_modules"@, "**/node_modules"@),
        ("target"@, "**/target"@),
        (".gradle"@, "**/.gradle"@),
        ("build"@, "**/build"@),
        ("dist"@, "**/dist"@),
        (".cache"@, "**/.cache"@),
        ("__pycache__"@, "**/__pycache__"@),
        (".venv"@, "**/.venv"@),
    ]
}

/// The directories that hold projects, relative to the home directory.
pub open spec fn project_roots() -> Seq<Seq<char>> {
    seq!["Documents"@, "Projects"@, "Developer"@, "Workspace"@, "src"@, "code"@]
}

/// The names and patterns of a vector of pairs of string slices.
pub open spec fn pairs(v: Seq<(&'static str, &'static str)>) -> Seq<(Seq<char>, Seq<char>)> {
    v.map_values(|p: (&'static str, &'static str)| (p.0@, p.1@))
}

impl DevJunkScanner {
    /// The directories looked for, each with its pattern.
    pub closed spec fn wanted(&self) -> Seq<(Seq<char>, Seq<char>)> {
        pairs(self.patterns@)
    }

    /// The directories under which the scanner looks.
    pub closed spec fn roots(&self) -> Seq<Seq<char>> {
        texts(self.search_roots@)
    }

    /// The scanner for the home directory that the environment names.
    pub fn new() -> (r: Self)
        ensures
            r.wanted() == junk_patterns(),
            exists|home: Seq<char>| r.roots() == under_home(home, project_roots()),
    {
        let home = super::home_or_root();
        let r = Self::with_home(home.as_str());
        assert(r.roots() == under_home(home@, project_roots()));
        r
    }

    /// The scanner for the home directory `home`.
    pub fn with_home(home: &str) -> (r: Self)
        ensures
            r.wanted() == junk_patterns(),
            r.roots() == under_home(home@, project_roots()),
    {
        let mut patterns: Vec<(&'static str, &'static str)> = Vec::new();
        patterns.push(("node_modules", "**/node_modules"));
        patterns.push(("target", "**/target"));
        patterns.push((".gradle", "**/.gradle"));
        patterns.push(("build", "**/build"));
        patterns.push(("dist", "**/dist"));
        patterns.push((".cache", "**/.cache"));
        patterns.push(("__pycache__", "**/__pycache__"));
        patterns.push((".venv", "**/.venv"));
        assert(pairs(patterns@) =~= junk_patterns());
        let mut rels: Vec<&'static str> = Vec::new();
        rels.push("Documents");
        rels.push("Projects");
        rels.push("Developer");
        rels.push("Workspace");
        rels.push("src");
        rels.push("code");
        assert(slices(rels@) =~= project_roots());
        DevJunkScanner {
            patterns,
            search_roots: join_all(home, &rels),
            safety_checker: SafetyChecker::new(),
        }
    }

    /// The directories under which the scanner looks.
    pub fn locations(&self) -> (r: &Vec<String>)
        ensures
            texts(r@) == self.roots(),
    {
        &self.search_roots
    }

    /// Number of patterns.
    pub fn pattern_count(&self) -> (n: usize)
        ensures
            n == self.wanted().len(),
    {
        self.patterns.len()
    }

    /// The pattern of slot `slot` below the root `root`.
    pub fn pattern_under(&self, root: &str, slot: usize) -> (r: String)
        requires
            slot < self.wanted().len(),
        ensures
            r@ == joined(root@, self.wanted()[slot as int].1),
    {
        join(root, self.patterns[slot].1)
    }

    pub fn is_available(&self) -> (r: bool)
        ensures
            r,
    {
        true
    }
}

impl Scanner for DevJunkScanner {
    open spec fn ident(&self) -> Seq<char> {
        "dev_junk"@
    }

    open spec fn title(&self) -> Seq<char> {
        "Development Junk"@
    }

    open spec fn group(&self) -> ScannerCategory {
        ScannerCategory::Development
    }

    /// A directory that a pattern found, that is not excluded and holds at
    /// least the smallest size is a finding, classified by the safety policy.
    open spec fn finding_for(
        &self,
        config: ScanConfigView,
        candidate: CandidateView,
        index: nat,
    ) -> Option<ScanResultView> {
        if candidate.slot >= self.wanted().len() || !candidate.is_dir || is_under_any(
            candidate.path,
            config.excluded_paths,
        ) || candidate.size < config.min_size {
            None
        } else {
            let kind = self.wanted()[candidate.slot as int].0;
            Some(
                reported(
                    "dev_"@ + kind + "_"@ + decimal(index),
                    name_or(candidate.path, "unknown"@) + " ("@ + kind + ")"@,
                    candidate,
                    candidate.file_count,
                    classify(candidate.path),
                    ScannerCategory::Development,
                    Some("dev_junk"@),
                ),
            )
        }
    }

    open spec fn cap(&self) -> usize {
        50
    }

    fn id(&self) -> (r: &'static str) {
        "dev_junk"
    }

    fn name(&self) -> (r: &'static str) {
        "Development Junk"
    }

    fn category(&self) -> (r: ScannerCategory) {
        ScannerCategory::Development
    }

    fn estimated_secs(&self) -> (r: u64) {
        5
    }

    fn accept(&self, config: &ScanConfig, candidate: &Candidate, index: usize) -> (r: Option<
        ScanResult,
    >) {
        if candidate.slot >= self.patterns.len() || !candidate.is_dir || under_any(
            candidate.path.as_str(),
            &config.excluded_paths,
        ) || candidate.size < config.min_size {
            return None;
        }
        let kind = self.patterns[candidate.slot].0;
        let id = concat4("dev_", kind, "_", decimal_string(index as u64).as_str());
        let name = concat4(
            file_name_or(candidate.path.as_str(), "unknown").as_str(),
            " (",
            kind,
            ")",
        );
        let level = self.safety_checker.check_path(candidate.path.as_str());
        Some(
            report(
                id,
                name,
                candidate,
                candidate.file_count,
                level,
                ScannerCategory::Development,
                Some("dev_junk"),
            ),
        )
    }

    fn limit(&self) -> (r: usize) {
        50
    }
}

impl Default for DevJunkScanner {
    fn default() -> Self {
        Self::new()
    }
}

} // verus!
