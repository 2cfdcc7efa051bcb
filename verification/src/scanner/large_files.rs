//! Large files that have not been used for a while.

use super::{join_all, report, reported, slices, under_home, Candidate, CandidateView, Scanner};
use crate::decimal::{decimal, decimal_string};
use crate::paths::{file_name_or, has_dot_name, is_dot_name, is_under_any, name_or, under_any};
use crate::plugin::traits::texts;
use crate::plugin::{
    SafetyLevel, ScanConfig, ScanConfigView, ScanResult, ScanResultView, ScannerCategory,
};
use crate::text::concat;
use crate::time::Timestamp;
use vstd::prelude::*;

verus! {

/// The smallest file reported where the settings name no size: 100 MiB.
pub const DEFAULT_MIN_SIZE: u64 = 100 * 1024 * 1024;

/// A file is old when it was neither read nor written for this many days.
pub const DEFAULT_MIN_AGE_DAYS: i64 = 30;

/// How deep the walk descends where the settings name no depth.
pub const DEFAULT_DEPTH: usize = 10;

/// Finds large files under the home directory that were left alone for a
/// month or more.
pub struct LargeOldFilesScanner {
    home: String,
    excluded_dirs: Vec<String>,
    now: Timestamp,
}

/// Directories that the walk does not enter, relative to the home directory.
pub open spec fn skipped_dirs() -> Seq<Seq<char>> {
    seq![
        "Library"@,
        ".Trash"@,
        "Applications"@,
        "Music"@,
        "Movies"@,
        "Pictures"@,
        ".config"@,
        ".cache"@,
    ]
}

/// Whole seconds from `older` to `now`; `None` where `now` is the earlier.
pub open spec fn seconds_between(older: Timestamp, now: Timestamp) -> Option<int> {
    if now.is_before(older) {
        None
    } else {
        Some(
            now.secs - older.secs - if now.nanos < older.nanos {
                1int
            } else {
                0int
            },
        )
    }
}

/// Days since a file was last read or written, whichever is longer ago;
/// `None` where one of the two times is unknown or lies after `now`.
pub open spec fn age_in_days(
    now: Timestamp,
    accessed: Option<Timestamp>,
    modified: Option<Timestamp>,
) -> Option<int> {
    match (accessed, modified) {
        (Some(a), Some(m)) => {
            let older = if a.is_before(m) {
                a
            } else {
                m
            };
            match seconds_between(older, now) {
                Some(secs) => Some(secs / 86400),
                None => None,
            }
        },
        _ => None,
    }
}

/// The smallest file that is reported under the settings `config`.
pub open spec fn size_floor(config: ScanConfigView) -> u64 {
    if config.min_size > 0 {
        config.min_size
    } else {
        DEFAULT_MIN_SIZE
    }
}

impl LargeOldFilesScanner {
    /// The directory that is walked.
    pub closed spec fn root(&self) -> Seq<char> {
        self.home@
    }

    /// The directories that the walk does not enter.
    pub closed spec fn skipped(&self) -> Seq<Seq<char>> {
        texts(self.excluded_dirs@)
    }

    /// The time against which the age of a file is measured.
    pub closed spec fn today(&self) -> Timestamp {
        self.now
    }

    /// The scanner for the home directory that the environment names, with
    /// ages measured against `now`.
    pub fn new(now: Timestamp) -> (r: Self)
        ensures
            r.today() == now,
            r.skipped() == under_home(r.root(), skipped_dirs()),
    {
        Self::with_home(super::home_or_root().as_str(), now)
    }

    /// The scanner for the home directory `home`, with ages measured against
    /// `now`.
    pub fn with_home(home: &str, now: Timestamp) -> (r: Self)
        ensures
            r.root() == home@,
            r.skipped() == under_home(home@, skipped_dirs()),
            r.today() == now,
    {
        let mut rels: Vec<&'static str> = Vec::new();
        rels.push("Library");
        rels.push(".Trash");
        rels.push("Applications");
        rels.push("Music");
        rels.push("Movies");
        rels.push("Pictures");
        rels.push(".config");
        rels.push(".cache");
        assert(slices(rels@) =~= skipped_dirs());
        LargeOldFilesScanner {
            home: String::from_str(home),
            excluded_dirs: join_all(home, &rels),
            now,
        }
    }

    /// The directory that is walked.
    pub fn home(&self) -> (r: &String)
        ensures
            r@ == self.root(),
    {
        &self.home
    }

    /// How deep the walk descends under the settings `config`.
    pub fn walk_depth(config: &ScanConfig) -> (r: usize)
        ensures
            r == if config.max_depth > 0 {
                config.max_depth
            } else {
                DEFAULT_DEPTH
            },
    {
        if config.max_depth > 0 {
            config.max_depth
        } else {
            DEFAULT_DEPTH
        }
    }

    /// Whether `path` lies in a directory that the walk does not enter.
    pub fn is_excluded(&self, path: &str) -> (r: bool)
        ensures
            r == is_under_any(path@, self.skipped()),
    {
        under_any(path, &self.excluded_dirs)
    }

    /// Whether the walk goes on to `path`: not into a directory that is
    /// skipped, and not into a hidden directory.
    pub fn descends(&self, path: &str, is_dir: bool) -> (r: bool)
        ensures
            r == (!is_under_any(path@, self.skipped()) && !(has_dot_name(path@) && is_dir)),
    {
        if self.is_excluded(path) {
            return false;
        }
        !(is_dot_name(path) && is_dir)
    }

    /// Days since a file was last read or written, as of `now`.
    pub fn get_file_age_days(
        now: Timestamp,
        accessed: Option<Timestamp>,
        modified: Option<Timestamp>,
    ) -> (r: Option<i64>)
        ensures
            match r {
                Some(days) => age_in_days(now, accessed, modified) == Some(days as int),
                None => age_in_days(now, accessed, modified) is None,
            },
    {
        let (a, m) = match (accessed, modified) {
            (Some(a), Some(m)) => (a, m),
            _ => {
                return None;
            },
        };
        let older = if a.earlier_than(&m) {
            a
        } else {
            m
        };
        if now.earlier_than(&older) {
            return None;
        }
        let borrow: i128 = if now.nanos < older.nanos {
            1
        } else {
            0
        };
        let secs: i128 = now.secs as i128 - older.secs as i128 - borrow;
        let days: i128 = secs / 86400;
        Some(days as i64)
    }

    pub fn is_available(&self) -> (r: bool)
        ensures
            r,
    {
        true
    }
}

impl Scanner for LargeOldFilesScanner {
    open spec fn ident(&self) -> Seq<char> {
        "large_old_files"@
    }

    open spec fn title(&self) -> Seq<char> {
        "Large & Old Files"@
    }

    open spec fn group(&self) -> ScannerCategory {
        ScannerCategory::System
    }

    /// A file of at least the smallest size that was neither read nor
    /// written for 30 days is a finding, to be deleted with caution.
    open spec fn finding_for(
        &self,
        config: ScanConfigView,
        candidate: CandidateView,
        index: nat,
    ) -> Option<ScanResultView> {
        let age = age_in_days(self.today(), candidate.last_accessed, candidate.last_modified);
        if !candidate.is_file || candidate.size < size_floor(config) || age is None || age->0
            < DEFAULT_MIN_AGE_DAYS {
            None
        } else {
            Some(
                reported(
                    "large_file_"@ + decimal(index),
                    name_or(candidate.path, "?"@),
                    candidate,
                    1,
                    SafetyLevel::Caution,
                    ScannerCategory::System,
                    None,
                ),
            )
        }
    }

    open spec fn cap(&self) -> usize {
        super::MAX_FINDINGS
    }

    fn id(&self) -> (r: &'static str) {
        "large_old_files"
    }

    fn name(&self) -> (r: &'static str) {
        "Large & Old Files"
    }

    fn category(&self) -> (r: ScannerCategory) {
        ScannerCategory::System
    }

    fn estimated_secs(&self) -> (r: u64) {
        5
    }

    fn accept(&self, config: &ScanConfig, candidate: &Candidate, index: usize) -> (r: Option<
        ScanResult,
    >) {
        let floor = if config.min_size > 0 {
            config.min_size
        } else {
            DEFAULT_MIN_SIZE
        };
        if !candidate.is_file || candidate.size < floor {
            return None;
        }
        match Self::get_file_age_days(self.now, candidate.last_accessed, candidate.last_modified) {
            Some(days) => {
                if days < DEFAULT_MIN_AGE_DAYS {
                    return None;
                }
            },
            None => {
                return None;
            },
        }
        let id = concat("large_file_", decimal_string(index as u64).as_str());
        let name = file_name_or(candidate.path.as_str(), "?");
        Some(
            report(
                id,
                name,
                candidate,
                1,
                SafetyLevel::Caution,
                ScannerCategory::System,
                None,
            ),
        )
    }

    fn limit(&self) -> (r: usize) {
        super::MAX_FINDINGS
    }
}

} // verus!
