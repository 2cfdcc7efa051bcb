//! Derived data of the photo library.

use super::{
    any_exists, locate, placed, report, reported, rows, Candidate, CandidateView, Location,
    LocationView, Scanner,
};
use crate::decimal::{decimal, decimal_string};
use crate::paths::{is_under_any, under_any};
use crate::plugin::{
    SafetyLevel, ScanConfig, ScanConfigView, ScanResult, ScanResultView, ScannerCategory,
};
use crate::sorting::views;
use crate::text::concat;
use vstd::prelude::*;

verus! {

/// Reports thumbnails and caches of the photo library.
pub struct PhotoJunkScanner {
    search_paths: Vec<Location>,
}

/// The places of photo junk inside the photo library: name, and path
/// relative to the home directory. All of it is deleted with caution.
pub open spec fn photo_places() -> Seq<(Seq<char>, Seq<char>, SafetyLevel)> {
    seq![
        ("Thumbnails"@, "Pictures/Photos Library.photoslibrary/resources/derivatives/thumbs"@, SafetyLevel::Caution),
        ("Caches"@, "Pictures/Photos Library.photoslibrary/resources/caches"@, SafetyLevel::Caution),
        ("Compute Cache"@, "Pictures/Photos Library.photoslibrary/private/com.apple.photolibraryd/caches/computecache"@, SafetyLevel::Caution),
        ("Analysis Cache"@, "Pictures/Photos Library.photoslibrary/private/com.apple.photoanalysisd/caches"@, SafetyLevel::Caution),
        ("iCloud Sync Cache"@, "Pictures/Photos Library.photoslibrary/resources/cpl/cloudsync.noindex"@, SafetyLevel::Caution),
        ("Spotlight Cache"@, "Pictures/Photos Library.photoslibrary/database/search"@, SafetyLevel::Caution),
    ]
}

impl PhotoJunkScanner {
    /// The places where the scanner looks.
    pub closed spec fn places(&self) -> Seq<LocationView> {
        views(self.search_paths@)
    }

    /// The scanner for the home directory that the environment names.
    pub fn new() -> (r: Self)
        ensures
            exists|home: Seq<char>| r.places() == placed(home, photo_places()),
    {
        let home = super::home_or_root();
        let r = Self::with_home(home.as_str());
        assert(r.places() == placed(home@, photo_places()));
        r
    }

    /// The scanner for the home directory `home`.
    pub fn with_home(home: &str) -> (r: Self)
        ensures
            r.places() == placed(home@, photo_places()),
    {
        let mut table: Vec<(&'static str, &'static str, SafetyLevel)> = Vec::new();
        table.push(("Thumbnails", "Pictures/Photos Library.photoslibrary/resources/derivatives/thumbs", SafetyLevel::Caution));
        table.push(("Caches", "Pictures/Photos Library.photoslibrary/resources/caches", SafetyLevel::Caution));
        table.push(("Compute Cache", "Pictures/Photos Library.photoslibrary/private/com.apple.photolibraryd/caches/computecache", SafetyLevel::Caution));
        table.push(("Analysis Cache", "Pictures/Photos Library.photoslibrary/private/com.apple.photoanalysisd/caches", SafetyLevel::Caution));
        table.push(("iCloud Sync Cache", "Pictures/Photos Library.photoslibrary/resources/cpl/cloudsync.noindex", SafetyLevel::Caution));
        table.push(("Spotlight Cache", "Pictures/Photos Library.photoslibrary/database/search", SafetyLevel::Caution));
        assert(rows(table@) =~= photo_places());
        PhotoJunkScanner { search_paths: locate(home, &table) }
    }

    /// The places where the scanner looks.
    pub fn locations(&self) -> (r: &Vec<Location>)
        ensures
            views(r@) == self.places(),
    {
        &self.search_paths
    }

    /// Whether there is anything to scan: one of the places exists.
    /// `exists[i]` says whether the `i`-th place is there.
    pub fn is_available(&self, exists: &Vec<bool>) -> (r: bool)
        ensures
            r == exists@.contains(true),
    {
        any_exists(exists)
    }
}

impl Scanner for PhotoJunkScanner {
    open spec fn ident(&self) -> Seq<char> {
        "photo_junk"@
    }

    open spec fn title(&self) -> Seq<char> {
        "Photo Junk"@
    }

    open spec fn group(&self) -> ScannerCategory {
        ScannerCategory::System
    }

    /// A place of the table that is not excluded and holds at least the
    /// smallest size is a finding.
    open spec fn finding_for(
        &self,
        config: ScanConfigView,
        candidate: CandidateView,
        index: nat,
    ) -> Option<ScanResultView> {
        if candidate.slot >= self.places().len()
            || is_under_any(candidate.path, config.excluded_paths)
            || candidate.size < config.min_size {
            None
        } else {
            let place = self.places()[candidate.slot as int];
            Some(
                reported(
                    "photo_"@ + decimal(index),
                    "Photos - "@ + place.label,
                    candidate,
                    candidate.file_count,
                    SafetyLevel::Caution,
                    ScannerCategory::System,
                    Some("photo_junk"@),
                ),
            )
        }
    }

    open spec fn cap(&self) -> usize {
        super::MAX_FINDINGS
    }

    fn id(&self) -> (r: &'static str) {
        "photo_junk"
    }

    fn name(&self) -> (r: &'static str) {
        "Photo Junk"
    }

    fn category(&self) -> (r: ScannerCategory) {
        ScannerCategory::System
    }

    fn estimated_secs(&self) -> (r: u64) {
        5
    }

    fn accept(&self, config: &ScanConfig, candidate: &Candidate, index: usize) -> (r: Option<
        ScanResult,
    >) {
        if candidate.slot >= self.search_paths.len()
            || under_any(candidate.path.as_str(), &config.excluded_paths)
            || candidate.size < config.min_size {
            return None;
        }
        let place = &self.search_paths[candidate.slot];
        let id = concat("photo_", decimal_string(index as u64).as_str());
        let name = concat("Photos - ", place.label.as_str());
        Some(
            report(
                id,
                name,
                candidate,
                candidate.file_count,
                SafetyLevel::Caution,
                ScannerCategory::System,
                Some("photo_junk"),
            ),
        )
    }

    fn limit(&self) -> (r: usize) {
        super::MAX_FINDINGS
    }
}

impl Default for PhotoJunkScanner {
    fn default() -> Self {
        Self::new()
    }
}

} // verus!
