//! Cache directories of web browsers.

use super::{locate, placed, report, reported, rows, Candidate, CandidateView, Location,
    LocationView, Scanner};
use crate::plugin::{
    SafetyLevel, ScanConfig, ScanConfigView, ScanResult, ScanResultView, ScannerCategory,
};
use crate::sorting::views;
use crate::text::{concat, lowercase, to_lowercase};
use vstd::prelude::*;

verus! {

/// Reports the cache of each browser that is installed.
pub struct BrowserCacheScanner {
    cache_paths: Vec<Location>,
}

/// The browsers and their cache directories, relative to the home directory.
pub open spec fn browser_caches() -> Seq<(Seq<char>, Seq<char>, SafetyLevel)> {
    seq![
        ("Safari"@, "Library/Caches/com.apple.Safari"@, SafetyLevel::Safe),
        ("Chrome"@, "Library/Caches/Google/Chrome"@, SafetyLevel::Safe),
        ("Firefox"@, "Library/Caches/Firefox"@, SafetyLevel::Safe),
        ("Edge"@, "Library/Caches/Microsoft Edge"@, SafetyLevel::Safe),
        ("Arc"@, "Library/Caches/Arc"@, SafetyLevel::Safe),
        ("Brave"@, "Library/Caches/BraveSoftware"@, SafetyLevel::Safe),
        ("Vivaldi"@, "Library/Caches/Vivaldi"@, SafetyLevel::Safe),
        ("Opera"@, "Library/Caches/com.operasoftware.Opera"@, SafetyLevel::Safe),
        ("Opera GX"@, "Library/Caches/com.operasoftware.OperaGX"@, SafetyLevel::Safe),
        ("Comet"@, "Library/Caches/Comet"@, SafetyLevel::Safe),
        ("Whale"@, "Library/Caches/Naver/Whale"@, SafetyLevel::Safe),
        ("Chromium"@, "Library/Caches/Chromium"@, SafetyLevel::Safe),
        ("Orion"@, "Library/Caches/com.kagi.kagimac"@, SafetyLevel::Safe),
    ]
}

impl BrowserCacheScanner {
    /// The browsers that the scanner knows, each with its cache directory.
    pub closed spec fn places(&self) -> Seq<LocationView> {
        views(self.cache_paths@)
    }

    /// The scanner for the home directory that the environment names.
    pub fn new() -> (r: Self)
        ensures
            exists|home: Seq<char>| r.places() == placed(home, browser_caches()),
    {
        let home = super::home_or_root();
        let r = Self::with_home(home.as_str());
        assert(r.places() == placed(home@, browser_caches()));
        r
    }

    /// The scanner for the home directory `home`.
    pub fn with_home(home: &str) -> (r: Self)
        ensures
            r.places() == placed(home@, browser_caches()),
    {
        let mut table: Vec<(&'static str, &'static str, SafetyLevel)> = Vec::new();
        table.push(("Safari", "Library/Caches/com.apple.Safari", SafetyLevel::Safe));
        table.push(("Chrome", "Library/Caches/Google/Chrome", SafetyLevel::Safe));
        table.push(("Firefox", "Library/Caches/Firefox", SafetyLevel::Safe));
        table.push(("Edge", "Library/Caches/Microsoft Edge", SafetyLevel::Safe));
        table.push(("Arc", "Library/Caches/Arc", SafetyLevel::Safe));
        table.push(("Brave", "Library/Caches/BraveSoftware", SafetyLevel::Safe));
        table.push(("Vivaldi", "Library/Caches/Vivaldi", SafetyLevel::Safe));
        table.push(("Opera", "Library/Caches/com.operasoftware.Opera", SafetyLevel::Safe));
        table.push(("Opera GX", "Library/Caches/com.operasoftware.OperaGX", SafetyLevel::Safe));
        table.push(("Comet", "Library/Caches/Comet", SafetyLevel::Safe));
        table.push(("Whale", "Library/Caches/Naver/Whale", SafetyLevel::Safe));
        table.push(("Chromium", "Library/Caches/Chromium", SafetyLevel::Safe));
        table.push(("Orion", "Library/Caches/com.kagi.kagimac", SafetyLevel::Safe));
        assert(rows(table@) =~= browser_caches());
        BrowserCacheScanner { cache_paths: locate(home, &table) }
    }

    /// The browsers that the scanner knows, each with its cache directory.
    pub fn locations(&self) -> (r: &Vec<Location>)
        ensures
            views(r@) == self.places(),
    {
        &self.cache_paths
    }

    pub fn is_available(&self) -> (r: bool)
        ensures
            r,
    {
        true
    }
}

impl Scanner for BrowserCacheScanner {
    open spec fn ident(&self) -> Seq<char> {
        "browser_cache"@
    }

    open spec fn title(&self) -> Seq<char> {
        "Browser Caches"@
    }

    open spec fn group(&self) -> ScannerCategory {
        ScannerCategory::Browser
    }

    /// The cache of a known browser is a finding, safe to delete, if it
    /// holds at least the smallest size.
    open spec fn finding_for(
        &self,
        config: ScanConfigView,
        candidate: CandidateView,
        index: nat,
    ) -> Option<ScanResultView> {
        if candidate.slot >= self.places().len() || candidate.size < config.min_size {
            None
        } else {
            let browser = self.places()[candidate.slot as int].label;
            Some(
                reported(
                    "browser_"@ + lowercase(browser),
                    browser + " Cache"@,
                    candidate,
                    candidate.file_count,
                    SafetyLevel::Safe,
                    ScannerCategory::Browser,
                    None,
                ),
            )
        }
    }

    open spec fn cap(&self) -> usize {
        super::MAX_FINDINGS
    }

    fn id(&self) -> (r: &'static str) {
        "browser_cache"
    }

    fn name(&self) -> (r: &'static str) {
        "Browser Caches"
    }

    fn category(&self) -> (r: ScannerCategory) {
        ScannerCategory::Browser
    }

    fn estimated_secs(&self) -> (r: u64) {
        5
    }

    fn accept(&self, config: &ScanConfig, candidate: &Candidate, index: usize) -> (r: Option<
        ScanResult,
    >) {
        if candidate.slot >= self.cache_paths.len() || candidate.size < config.min_size {
            return None;
        }
        let browser = &self.cache_paths[candidate.slot].label;
        let id = concat("browser_", to_lowercase(browser.as_str()).as_str());
        let name = concat(browser.as_str(), " Cache");
        Some(
            report(
                id,
                name,
                candidate,
                candidate.file_count,
                SafetyLevel::Safe,
                ScannerCategory::Browser,
                None,
            ),
        )
    }

    fn limit(&self) -> (r: usize) {
        super::MAX_FINDINGS
    }
}

impl Default for BrowserCacheScanner {
    fn default() -> Self {
        Self::new()
    }
}

} // verus!
