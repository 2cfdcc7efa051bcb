//! Caches and downloads of the music and podcast applications.

use super::{
    any_exists, locate, placed, report, reported, rows, Candidate, CandidateView, Location,
    LocationView, Scanner,
};
use crate::decimal::{decimal, decimal_string};
use crate::paths::{is_under_any, under_any};
use crate::plugin::{
    SafetyLevel, ScanConfig, ScanConfigView, ScanResult, ScanResultView, ScannerCategory,
};
use crate::sorting::views;
use crate::text::concat;
use vstd::prelude::*;

verus! {

/// Reports what the music and podcast applications left behind.
pub struct MusicJunkScanner {
    search_paths: Vec<Location>,
}

/// The places of music junk: name, path relative to the home directory, and
/// how safe it is to delete what is there.
pub open spec fn music_places() -> Seq<(Seq<char>, Seq<char>, SafetyLevel)> {
    seq![
        ("Music Cache"@, "Library/Caches/com.apple.Music"@, SafetyLevel::Safe),
        ("Music Streaming Cache"@, "Library/Caches/com.apple.MediaStreaming"@, SafetyLevel::Safe),
        ("Podcasts Cache"@, "Library/Caches/com.apple.podcasts"@, SafetyLevel::Safe),
        ("iTunes Cache"@, "Library/Caches/com.apple.iTunes"@, SafetyLevel::Safe),
        ("Podcasts Downloads"@, "Library/Group Containers/243LU875E5.groups.com.apple.podcasts/Documents"@, SafetyLevel::Caution),
        ("Music Library Cache"@, "Music/Music/Media.localized"@, SafetyLevel::Caution),
        ("iOS Device Backups Cache"@, "Library/Apple/MobileDevice/AllBackupCache"@, SafetyLevel::Safe),
        ("GarageBand Cache"@, "Library/Application Support/GarageBand"@, SafetyLevel::Safe),
        ("Logic Cache"@, "Library/Application Support/Logic"@, SafetyLevel::Safe),
    ]
}

impl MusicJunkScanner {
    /// The places where the scanner looks.
    pub closed spec fn places(&self) -> Seq<LocationView> {
        views(self.search_paths@)
    }

    /// The scanner for the home directory that the environment names.
    pub fn new() -> (r: Self)
        ensures
            exists|home: Seq<char>| r.places() == placed(home, music_places()),
    {
        let home = super::home_or_root();
        let r = Self::with_home(home.as_str());
        assert(r.places() == placed(home@, music_places()));
        r
    }

    /// The scanner for the home directory `home`.
    pub fn with_home(home: &str) -> (r: Self)
        ensures
            r.places() == placed(home@, music_places()),
    {
        let mut table: Vec<(&'static str, &'static str, SafetyLevel)> = Vec::new();
        table.push(("Music Cache", "Library/Caches/com.apple.Music", SafetyLevel::Safe));
        table.push(("Music Streaming Cache", "Library/Caches/com.apple.MediaStreaming", SafetyLevel::Safe));
        table.push(("Podcasts Cache", "Library/Caches/com.apple.podcasts", SafetyLevel::Safe));
        table.push(("iTunes Cache", "Library/Caches/com.apple.iTunes", SafetyLevel::Safe));
        table.push(("Podcasts Downloads", "Library/Group Containers/243LU875E5.groups.com.apple.podcasts/Documents", SafetyLevel::Caution));
        table.push(("Music Library Cache", "Music/Music/Media.localized", SafetyLevel::Caution));
        table.push(("iOS Device Backups Cache", "Library/Apple/MobileDevice/AllBackupCache", SafetyLevel::Safe));
        table.push(("GarageBand Cache", "Library/Application Support/GarageBand", SafetyLevel::Safe));
        table.push(("Logic Cache", "Library/Application Support/Logic", SafetyLevel::Safe));
        assert(rows(table@) =~= music_places());
        MusicJunkScanner { search_paths: locate(home, &table) }
    }

    /// The places where the scanner looks.
    pub fn locations(&self) -> (r: &Vec<Location>)
        ensures
            views(r@) == self.places(),
    {
        &self.search_paths
    }

    /// Whether there is anything to scan: one of the places exists.
    /// `exists[i]` says whether the `i`-th place is there.
    pub fn is_available(&self, exists: &Vec<bool>) -> (r: bool)
        ensures
            r == exists@.contains(true),
    {
        any_exists(exists)
    }
}

impl Scanner for MusicJunkScanner {
    open spec fn ident(&self) -> Seq<char> {
        "music_junk"@
    }

    open spec fn title(&self) -> Seq<char> {
        "Music & Podcasts"@
    }

    open spec fn group(&self) -> ScannerCategory {
        ScannerCategory::System
    }

    /// A place of the table that is not excluded and holds at least the
    /// smallest size is a finding.
    open spec fn finding_for(
        &self,
        config: ScanConfigView,
        candidate: CandidateView,
        index: nat,
    ) -> Option<ScanResultView> {
        if candidate.slot >= self.places().len()
            || is_under_any(candidate.path, config.excluded_paths)
            || candidate.size < config.min_size {
            None
        } else {
            let place = self.places()[candidate.slot as int];
            Some(
                reported(
                    "music_"@ + decimal(index),
                    "Music - "@ + place.label,
                    candidate,
                    candidate.file_count,
                    place.safety,
                    ScannerCategory::System,
                    Some("music_junk"@),
                ),
            )
        }
    }

    open spec fn cap(&self) -> usize {
        super::MAX_FINDINGS
    }

    fn id(&self) -> (r: &'static str) {
        "music_junk"
    }

    fn name(&self) -> (r: &'static str) {
        "Music & Podcasts"
    }

    fn category(&self) -> (r: ScannerCategory) {
        ScannerCategory::System
    }

    fn estimated_secs(&self) -> (r: u64) {
        5
    }

    fn accept(&self, config: &ScanConfig, candidate: &Candidate, index: usize) -> (r: Option<
        ScanResult,
    >) {
        if candidate.slot >= self.search_paths.len()
            || under_any(candidate.path.as_str(), &config.excluded_paths)
            || candidate.size < config.min_size {
            return None;
        }
        let place = &self.search_paths[candidate.slot];
        let id = concat("music_", decimal_string(index as u64).as_str());
        let name = concat("Music - ", place.label.as_str());
        Some(
            report(
                id,
                name,
                candidate,
                candidate.file_count,
                place.safety,
                ScannerCategory::System,
                Some("music_junk"),
            ),
        )
    }

    fn limit(&self) -> (r: usize) {
        super::MAX_FINDINGS
    }
}

impl Default for MusicJunkScanner {
    fn default() -> Self {
        Self::new()
    }
}

} // verus!
