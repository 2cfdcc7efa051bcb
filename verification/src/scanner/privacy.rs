//! Traces of use: cookies, histories and lists of recent items.

use super::{
    any_exists, locate, placed, report, reported, rows, Candidate, CandidateView, Location,
    LocationView, Scanner,
};
use crate::decimal::{decimal, decimal_string};
use crate::paths::{is_under_any, under_any};
use crate::plugin::{
    SafetyLevel, ScanConfig, ScanConfigView, ScanResult, ScanResultView, ScannerCategory,
};
use crate::sorting::views;
use crate::text::concat;
use crate::paths::{file_name, file_name_of, join, joined};
use crate::text::has_infix;
use vstd::prelude::*;

verus! {

/// Reports files that record what the user did.
pub struct PrivacyScanner {
    search_paths: Vec<Location>,
}

/// The privacy artifacts: name, path relative to the home directory, and how
/// safe it is to delete the file.
pub open spec fn privacy_places() -> Seq<(Seq<char>, Seq<char>, SafetyLevel)> {
    seq![
        ("Safari Cookies"@, "Library/Cookies/com.apple.Safari/ Cookies.binarycookies"@, SafetyLevel::Caution),
        ("Safari History"@, "Library/Safari/History.db"@, SafetyLevel::Caution),
        ("Safari Downloads"@, "Library/Safari/Downloads.plist"@, SafetyLevel::Caution),
        ("Chrome Cookies"@, "Library/Application Support/Google/Chrome/Default/Cookies"@, SafetyLevel::Caution),
        ("Chrome History"@, "Library/Application Support/Google/Chrome/Default/History"@, SafetyLevel::Caution),
        ("Chrome Login Data"@, "Library/Application Support/Google/Chrome/Default/Login Data"@, SafetyLevel::Protected),
        ("Firefox Cookies"@, "Library/Application Support/Firefox/Profiles/cookies.sqlite"@, SafetyLevel::Caution),
        ("Firefox History"@, "Library/Application Support/Firefox/Profiles/places.sqlite"@, SafetyLevel::Caution),
        ("Edge Cookies"@, "Library/Application Support/Microsoft Edge/Default/Cookies"@, SafetyLevel::Caution),
        ("Edge History"@, "Library/Application Support/Microsoft Edge/Default/History"@, SafetyLevel::Caution),
        ("Brave Cookies"@, "Library/Application Support/BraveSoftware/Brave-Browser/Default/Cookies"@, SafetyLevel::Caution),
        ("Brave History"@, "Library/Application Support/BraveSoftware/Brave-Browser/Default/History"@, SafetyLevel::Caution),
        ("Arc Cookies"@, "Library/Application Support/Arc/User Data/Default/Cookies"@, SafetyLevel::Caution),
        ("Arc History"@, "Library/Application Support/Arc/User Data/Default/History"@, SafetyLevel::Caution),
        ("Vivaldi Cookies"@, "Library/Application Support/Vivaldi/Default/Cookies"@, SafetyLevel::Caution),
        ("Vivaldi History"@, "Library/Application Support/Vivaldi/Default/History"@, SafetyLevel::Caution),
        ("Opera Cookies"@, "Library/Application Support/com.operasoftware.Opera/Cookies"@, SafetyLevel::Caution),
        ("Opera History"@, "Library/Application Support/com.operasoftware.Opera/History"@, SafetyLevel::Caution),
        ("Recent Items"@, "Library/Application Support/com.apple.sharedfilelist/com.apple.LSSharedFileList.ApplicationRecentDocuments/com.apple.LSSharedFileList.ApplicationRecentDocuments.sfl"@, SafetyLevel::Caution),
        ("Recent Servers"@, "Library/Application Support/com.apple.sharedfilelist/com.apple.LSSharedFileList.RecentServers.sfl"@, SafetyLevel::Caution),
        ("Download History"@, "Library/Preferences/com.apple.LaunchServices/com.apple.launchservices.secure.plist"@, SafetyLevel::Caution),
        ("Quick Look Cache"@, "Library/Caches/com.apple.QuickLookDaemon/Cache.db"@, SafetyLevel::Safe),
        ("Finder Recent"@, "Library/Preferences/com.apple.finder.plist"@, SafetyLevel::Caution),
    ]
}

impl PrivacyScanner {
    /// The places where the scanner looks.
    pub closed spec fn places(&self) -> Seq<LocationView> {
        views(self.search_paths@)
    }

    /// The scanner for the home directory that the environment names.
    pub fn new() -> (r: Self)
        ensures
            exists|home: Seq<char>| r.places() == placed(home, privacy_places()),
    {
        let home = super::home_or_root();
        let r = Self::with_home(home.as_str());
        assert(r.places() == placed(home@, privacy_places()));
        r
    }

    /// The scanner for the home directory `home`.
    pub fn with_home(home: &str) -> (r: Self)
        ensures
            r.places() == placed(home@, privacy_places()),
    {
        let mut table: Vec<(&'static str, &'static str, SafetyLevel)> = Vec::new();
        table.push(("Safari Cookies", "Library/Cookies/com.apple.Safari/ Cookies.binarycookies", SafetyLevel::Caution));
        table.push(("Safari History", "Library/Safari/History.db", SafetyLevel::Caution));
        table.push(("Safari Downloads", "Library/Safari/Downloads.plist", SafetyLevel::Caution));
        table.push(("Chrome Cookies", "Library/Application Support/Google/Chrome/Default/Cookies", SafetyLevel::Caution));
        table.push(("Chrome History", "Library/Application Support/Google/Chrome/Default/History", SafetyLevel::Caution));
        table.push(("Chrome Login Data", "Library/Application Support/Google/Chrome/Default/Login Data", SafetyLevel::Protected));
        table.push(("Firefox Cookies", "Library/Application Support/Firefox/Profiles/cookies.sqlite", SafetyLevel::Caution));
        table.push(("Firefox History", "Library/Application Support/Firefox/Profiles/places.sqlite", SafetyLevel::Caution));
        table.push(("Edge Cookies", "Library/Application Support/Microsoft Edge/Default/Cookies", SafetyLevel::Caution));
        table.push(("Edge History", "Library/Application Support/Microsoft Edge/Default/History", SafetyLevel::Caution));
        table.push(("Brave Cookies", "Library/Application Support/BraveSoftware/Brave-Browser/Default/Cookies", SafetyLevel::Caution));
        table.push(("Brave History", "Library/Application Support/BraveSoftware/Brave-Browser/Default/History", SafetyLevel::Caution));
        table.push(("Arc Cookies", "Library/Application Support/Arc/User Data/Default/Cookies", SafetyLevel::Caution));
        table.push(("Arc History", "Library/Application Support/Arc/User Data/Default/History", SafetyLevel::Caution));
        table.push(("Vivaldi Cookies", "Library/Application Support/Vivaldi/Default/Cookies", SafetyLevel::Caution));
        table.push(("Vivaldi History", "Library/Application Support/Vivaldi/Default/History", SafetyLevel::Caution));
        table.push(("Opera Cookies", "Library/Application Support/com.operasoftware.Opera/Cookies", SafetyLevel::Caution));
        table.push(("Opera History", "Library/Application Support/com.operasoftware.Opera/History", SafetyLevel::Caution));
        table.push(("Recent Items", "Library/Application Support/com.apple.sharedfilelist/com.apple.LSSharedFileList.ApplicationRecentDocuments/com.apple.LSSharedFileList.ApplicationRecentDocuments.sfl", SafetyLevel::Caution));
        table.push(("Recent Servers", "Library/Application Support/com.apple.sharedfilelist/com.apple.LSSharedFileList.RecentServers.sfl", SafetyLevel::Caution));
        table.push(("Download History", "Library/Preferences/com.apple.LaunchServices/com.apple.launchservices.secure.plist", SafetyLevel::Caution));
        table.push(("Quick Look Cache", "Library/Caches/com.apple.QuickLookDaemon/Cache.db", SafetyLevel::Safe));
        table.push(("Finder Recent", "Library/Preferences/com.apple.finder.plist", SafetyLevel::Caution));
        assert(rows(table@) =~= privacy_places());
        PrivacyScanner { search_paths: locate(home, &table) }
    }

    /// The places where the scanner looks.
    pub fn locations(&self) -> (r: &Vec<Location>)
        ensures
            views(r@) == self.places(),
    {
        &self.search_paths
    }

    /// Whether there is anything to scan: one of the places exists.
    /// `exists[i]` says whether the `i`-th place is there.
    pub fn is_available(&self, exists: &Vec<bool>) -> (r: bool)
        ensures
            r == exists@.contains(true),
    {
        any_exists(exists)
    }

    /// Whether the place `path` stands for a file in a browser profile whose
    /// directory is found only by looking: the path names the profiles
    /// directory where the profile's own directory would stand.
    pub fn is_profile_file(path: &str) -> (r: bool)
        ensures
            r == has_infix(path@, "Firefox/Profiles/"@),
    {
        crate::text::contains(path, "Firefox/Profiles/")
    }

    /// The file of the place `path` inside the profile directory `profile`.
    /// A path without a file name stands for no file.
    pub fn profile_file(profile: &str, path: &str) -> (r: Option<String>)
        ensures
            match r {
                Some(file) => file_name_of(path@) is Some && file@ == joined(
                    profile@,
                    file_name_of(path@)->0,
                ),
                None => file_name_of(path@) is None,
            },
    {
        match file_name(path) {
            Some(name) => Some(join(profile, name.as_str())),
            None => None,
        }
    }
}

impl Scanner for PrivacyScanner {
    open spec fn ident(&self) -> Seq<char> {
        "privacy"@
    }

    open spec fn title(&self) -> Seq<char> {
        "Privacy"@
    }

    open spec fn group(&self) -> ScannerCategory {
        ScannerCategory::Browser
    }

    /// A place of the table that is not excluded and holds at least the
    /// smallest size is a finding.
    open spec fn finding_for(
        &self,
        config: ScanConfigView,
        candidate: CandidateView,
        index: nat,
    ) -> Option<ScanResultView> {
        if candidate.slot >= self.places().len()
            || is_under_any(candidate.path, config.excluded_paths)
            || candidate.size < config.min_size {
            None
        } else {
            let place = self.places()[candidate.slot as int];
            Some(
                reported(
                    "privacy_"@ + decimal(index),
                    place.label,
                    candidate,
                    1,
                    place.safety,
                    ScannerCategory::Browser,
                    Some("privacy"@),
                ),
            )
        }
    }

    open spec fn cap(&self) -> usize {
        super::MAX_FINDINGS
    }

    fn id(&self) -> (r: &'static str) {
        "privacy"
    }

    fn name(&self) -> (r: &'static str) {
        "Privacy"
    }

    fn category(&self) -> (r: ScannerCategory) {
        ScannerCategory::Browser
    }

    fn estimated_secs(&self) -> (r: u64) {
        5
    }

    fn accept(&self, config: &ScanConfig, candidate: &Candidate, index: usize) -> (r: Option<
        ScanResult,
    >) {
        if candidate.slot >= self.search_paths.len()
            || under_any(candidate.path.as_str(), &config.excluded_paths)
            || candidate.size < config.min_size {
            return None;
        }
        let place = &self.search_paths[candidate.slot];
        let id = concat("privacy_", decimal_string(index as u64).as_str());
        let name = place.label.clone();
        Some(
            report(
                id,
                name,
                candidate,
                1,
                place.safety,
                ScannerCategory::Browser,
                Some("privacy"),
            ),
        )
    }

    fn limit(&self) -> (r: usize) {
        super::MAX_FINDINGS
    }
}

impl Default for PrivacyScanner {
    fn default() -> Self {
        Self::new()
    }
}

} // verus!
