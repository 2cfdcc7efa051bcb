//! The scanners: for each kind of reclaimable storage, the rule that turns a
//! candidate path into a finding, and the order and number in which findings
//! are handed out.
//!
//! A scanner does not touch the file system. Whoever drives it walks the
//! scanner's locations, measures each candidate and hands it over as a
//! [`Candidate`]; the scanner says whether it is a finding.

pub mod browser;
pub mod caches;
pub mod dev;
pub mod duplicates;
pub mod large_files;
pub mod logs;
pub mod mail;
pub mod maintenance;
pub mod music;
pub mod photo;
pub mod privacy;
pub mod startup;
pub mod trash;

pub use browser::BrowserCacheScanner;
pub use caches::CacheScanner;
pub use dev::DevJunkScanner;
pub use duplicates::DuplicatesScanner;
pub use large_files::LargeOldFilesScanner;
pub use logs::LogScanner;
pub use mail::MailAttachmentsScanner;
pub use maintenance::MaintenanceScanner;
pub use music::MusicJunkScanner;
pub use photo::PhotoJunkScanner;
pub use privacy::PrivacyScanner;
pub use startup::{StartupCategory, StartupItemsScanner};
pub use trash::TrashScanner;

use crate::paths::{join, joined};
use crate::plugin::{
    SafetyLevel, ScanConfig, ScanConfigView, ScanResult, ScanResultView, ScannerCategory,
};
use crate::sorting::{sort_stable, stable_sort, views, Order, Precedence};
use crate::time::Timestamp;
use vstd::prelude::*;

verus! {

/// A path that a scanner's walk came across, with what was measured of it.
#[derive(Debug)]
pub struct Candidate {
    pub path: String,
    /// Which entry of the scanner's table of locations led to the path.
    pub slot: usize,
    pub is_dir: bool,
    pub is_file: bool,
    /// Bytes of the file, or of all files under the directory.
    pub size: u64,
    /// Number of files under the directory.
    pub file_count: u64,
    pub last_accessed: Option<Timestamp>,
    pub last_modified: Option<Timestamp>,
}

/// A candidate, with its path as a character sequence.
pub struct CandidateView {
    pub path: Seq<char>,
    pub slot: usize,
    pub is_dir: bool,
    pub is_file: bool,
    pub size: u64,
    pub file_count: u64,
    pub last_accessed: Option<Timestamp>,
    pub last_modified: Option<Timestamp>,
}

impl View for Candidate {
    type V = CandidateView;

    open spec fn view(&self) -> CandidateView {
        CandidateView {
            path: self.path@,
            slot: self.slot,
            is_dir: self.is_dir,
            is_file: self.is_file,
            size: self.size,
            file_count: self.file_count,
            last_accessed: self.last_accessed,
            last_modified: self.last_modified,
        }
    }
}

/// The finding that reports `candidate` under the given identity and name.
/// Its metadata names the scanner where `source` is given.
pub open spec fn reported(
    id: Seq<char>,
    name: Seq<char>,
    candidate: CandidateView,
    file_count: u64,
    safety_level: SafetyLevel,
    category: ScannerCategory,
    source: Option<Seq<char>>,
) -> ScanResultView {
    ScanResultView {
        id,
        name,
        path: candidate.path,
        size: candidate.size,
        file_count,
        dir_count: 0,
        last_accessed: candidate.last_accessed,
        last_modified: candidate.last_modified,
        safety_level,
        category,
        metadata: match source {
            Some(s) => Map::empty().insert("scanner_id"@, s),
            None => Map::empty(),
        },
    }
}

/// Builds the finding that reports `candidate`.
pub fn report(
    id: String,
    name: String,
    candidate: &Candidate,
    file_count: u64,
    safety_level: SafetyLevel,
    category: ScannerCategory,
    source: Option<&str>,
) -> (r: ScanResult)
    ensures
        r@ == reported(
            id@,
            name@,
            candidate@,
            file_count,
            safety_level,
            category,
            match source {
                Some(s) => Some(s@),
                None => None,
            },
        ),
{
    let item = ScanResult::new(id, name, candidate.path.clone()).with_size(
        candidate.size,
    ).with_file_count(file_count).with_category(category).with_safety(
        safety_level,
    ).with_last_accessed(candidate.last_accessed).with_last_modified(candidate.last_modified);
    match source {
        Some(s) => item.with_meta("scanner_id", String::from_str(s)),
        None => item,
    }
}

/// The order in which findings are handed out: larger ones first.
pub struct LargestFirst;

impl Precedence<ScanResultView> for LargestFirst {
    open spec fn before(a: ScanResultView, b: ScanResultView) -> bool {
        a.size > b.size
    }
}

impl Order<ScanResult> for LargestFirst {
    fn precedes(a: &ScanResult, b: &ScanResult) -> (r: bool) {
        a.size > b.size
    }
}

/// A scanner: its identity, and its rule for candidates.
pub trait Scanner {
    /// The scanner's identity.
    spec fn ident(&self) -> Seq<char>;

    /// The scanner's name as it is shown.
    spec fn title(&self) -> Seq<char>;

    /// The kind of storage the scanner looks at.
    spec fn group(&self) -> ScannerCategory;

    /// The finding for `candidate`, if it is one, when `index` findings were
    /// accepted before it.
    spec fn finding_for(
        &self,
        config: ScanConfigView,
        candidate: CandidateView,
        index: nat,
    ) -> Option<ScanResultView>;

    /// The largest number of findings handed out.
    spec fn cap(&self) -> usize;

    fn id(&self) -> (r: &'static str)
        ensures
            r@ == self.ident(),
    ;

    fn name(&self) -> (r: &'static str)
        ensures
            r@ == self.title(),
    ;

    fn category(&self) -> (r: ScannerCategory)
        ensures
            r == self.group(),
    ;

    /// Seconds that a scan is expected to take.
    fn estimated_secs(&self) -> (r: u64)
        ensures
            r == 5,
    ;

    /// The finding for `candidate`, if it is one.
    fn accept(&self, config: &ScanConfig, candidate: &Candidate, index: usize) -> (r: Option<
        ScanResult,
    >)
        ensures
            match r {
                Some(f) => self.finding_for(config@, candidate@, index as nat) == Some(f@),
                None => self.finding_for(config@, candidate@, index as nat) is None,
            },
    ;

    fn limit(&self) -> (r: usize)
        ensures
            r == self.cap(),
    ;
}

/// The largest number of findings that a scanner hands out, unless it has a
/// smaller limit of its own.
pub const MAX_FINDINGS: usize = 100;

/// The findings among `candidates`, in the order of the walk. Each is made
/// with the number of findings before it.
pub open spec fn accepted<S: Scanner>(
    scanner: &S,
    config: ScanConfigView,
    candidates: Seq<CandidateView>,
) -> Seq<ScanResultView>
    decreases candidates.len(),
{
    if candidates.len() == 0 {
        Seq::empty()
    } else {
        let before = accepted(scanner, config, candidates.drop_last());
        match scanner.finding_for(config, candidates.last(), before.len()) {
            Some(f) => before.push(f),
            None => before,
        }
    }
}

/// The first `n` items of `s`, or all of them where there are no more.
pub open spec fn at_most<T>(s: Seq<T>, n: usize) -> Seq<T> {
    if s.len() > n {
        s.take(n as int)
    } else {
        s
    }
}

/// The findings `items` by size, largest first, and no more than `cap` of
/// them. Findings of the same size keep the order in which they were found.
pub open spec fn largest(items: Seq<ScanResultView>, cap: usize) -> Seq<ScanResultView> {
    at_most(stable_sort::<ScanResultView, LargestFirst>(items), cap)
}

/// What a scanner hands out of the findings `items`: the largest of them,
/// largest first, no more than its limit.
pub open spec fn finished<S: Scanner>(scanner: &S, items: Seq<ScanResultView>) -> Seq<
    ScanResultView,
> {
    largest(items, scanner.cap())
}

/// Orders the findings `items` by size, largest first, and keeps no more
/// than `cap` of them.
pub fn keep_largest(items: Vec<ScanResult>, cap: usize) -> (r: Vec<ScanResult>)
    ensures
        views(r@) == largest(views(items@), cap),
{
    let mut items = items;
    sort_stable::<ScanResult, LargestFirst>(&mut items);
    let ghost before = views(items@);
    items.truncate(cap);
    assert(views(items@) =~= at_most(before, cap));
    items
}

/// What a scan over `candidates` hands out.
pub open spec fn scan_result<S: Scanner>(
    scanner: &S,
    config: ScanConfigView,
    candidates: Seq<CandidateView>,
) -> Seq<ScanResultView> {
    finished(scanner, accepted(scanner, config, candidates))
}

/// "Larger first" never asks for both orders of two findings, and findings
/// of which neither has to stand before a third are not parted by it.
pub proof fn lemma_largest_first_is_consistent()
    ensures
        crate::sorting::is_consistent::<ScanResultView, LargestFirst>(),
{
}

/// What is handed out is ordered and bounded: no finding is larger than one
/// that stands before it, and there are no more findings than the limit
/// allows, nor more than were found.
pub proof fn lemma_largest_is_ordered_and_bounded(items: Seq<ScanResultView>, cap: usize)
    ensures
        forall|i: int, j: int|
            0 <= i < j < largest(items, cap).len() ==> largest(items, cap)[i].size >= largest(
                items,
                cap,
            )[j].size,
        largest(items, cap).len() <= cap,
        largest(items, cap).len() <= items.len(),
{
    crate::sorting::lemma_stable_sort_permutes::<ScanResultView, LargestFirst>(items);
    lemma_largest_first_is_consistent();
    crate::sorting::lemma_stable_sort_ordered::<ScanResultView, LargestFirst>(items);
    let sorted = stable_sort::<ScanResultView, LargestFirst>(items);
    let out = largest(items, cap);
    assert forall|i: int, j: int| 0 <= i < j < out.len() implies out[i].size >= out[j].size by {
        assert(out[i] == sorted[i] && out[j] == sorted[j]);
        assert(!LargestFirst::before(sorted[j], sorted[i]));
    }
}

/// Within the limit nothing is lost: the findings handed out are exactly
/// those that were found, each as often as it was found.
pub proof fn lemma_largest_keeps_findings(items: Seq<ScanResultView>, cap: usize)
    requires
        items.len() <= cap,
    ensures
        largest(items, cap).to_multiset() == items.to_multiset(),
{
    crate::sorting::lemma_stable_sort_permutes::<ScanResultView, LargestFirst>(items);
}

/// Every finding that is handed out is larger than, or as large as, every
/// finding that the limit cut off.
pub proof fn lemma_largest_cuts_the_smallest(items: Seq<ScanResultView>, cap: usize, i: int, k: int)
    requires
        0 <= i < largest(items, cap).len(),
        cap <= k < items.len(),
    ensures
        largest(items, cap)[i].size >= stable_sort::<ScanResultView, LargestFirst>(items)[k].size,
{
    crate::sorting::lemma_stable_sort_permutes::<ScanResultView, LargestFirst>(items);
    lemma_largest_first_is_consistent();
    crate::sorting::lemma_stable_sort_ordered::<ScanResultView, LargestFirst>(items);
    let sorted = stable_sort::<ScanResultView, LargestFirst>(items);
    assert(largest(items, cap)[i] == sorted[i]);
    assert(!LargestFirst::before(sorted[k], sorted[i]));
}

/// Orders and limits the findings of a scan.
pub fn finish<S: Scanner>(scanner: &S, items: Vec<ScanResult>) -> (r: Vec<ScanResult>)
    ensures
        views(r@) == finished(scanner, views(items@)),
{
    keep_largest(items, scanner.limit())
}

/// Runs a scan over the candidates of a walk.
pub fn run_scan<S: Scanner>(scanner: &S, config: &ScanConfig, candidates: &Vec<Candidate>) -> (r:
    Vec<ScanResult>)
    ensures
        views(r@) == scan_result(scanner, config@, views(candidates@)),
{
    let ghost all = views(candidates@);
    let mut items: Vec<ScanResult> = Vec::new();
    let mut i: usize = 0;
    assert(views(items@) =~= accepted(scanner, config@, all.take(0)));
    while i < candidates.len()
        invariant
            i <= candidates@.len(),
            all == views(candidates@),
            views(items@) == accepted(scanner, config@, all.take(i as int)),
        decreases candidates.len() - i,
    {
        proof {
            assert(all.take(i + 1).drop_last() == all.take(i as int));
            assert(all.take(i + 1).last() == candidates@[i as int]@);
        }
        let ghost before = items@;
        match scanner.accept(config, &candidates[i], items.len()) {
            Some(f) => {
                items.push(f);
                assert(views(items@) =~= views(before).push(f@));
            },
            None => {},
        }
        i += 1;
    }
    assert(all.take(candidates@.len() as int) == all);
    finish(scanner, items)
}

/// What a walk saw of one entry below a path.
#[derive(Debug, Clone, Copy, PartialEq, Eq, Structural)]
pub struct WalkedEntry {
    /// The entry is a regular file.
    pub is_file: bool,
    /// The entry's length in bytes; `None` where its metadata could not be
    /// read.
    pub len: Option<u64>,
}

/// Bytes of the regular files among `entries` whose length could be read.
pub open spec fn readable_bytes(entries: Seq<WalkedEntry>) -> nat
    decreases entries.len(),
{
    if entries.len() == 0 {
        0
    } else {
        readable_bytes(entries.drop_last()) + match entries.last().len {
            Some(len) => if entries.last().is_file {
                len as nat
            } else {
                0
            },
            None => 0,
        }
    }
}

/// Number of regular files among `entries`.
pub open spec fn regular_files(entries: Seq<WalkedEntry>) -> nat
    decreases entries.len(),
{
    if entries.len() == 0 {
        0
    } else {
        regular_files(entries.drop_last()) + if entries.last().is_file {
            1nat
        } else {
            0nat
        }
    }
}

/// The size of a path: the bytes of all regular files that a walk below it
/// could read. What could not be read counts as nothing; a path that is not
/// there has no entries and the size 0.
pub fn calculate_dir_size(entries: &Vec<WalkedEntry>) -> (r: u64)
    ensures
        r == crate::plugin::registry::clamp_u64(readable_bytes(entries@)),
{
    let mut total: u64 = 0;
    let mut i: usize = 0;
    while i < entries.len()
        invariant
            i <= entries@.len(),
            total == crate::plugin::registry::clamp_u64(readable_bytes(entries@.take(i as int))),
        decreases entries.len() - i,
    {
        assert(entries@.take(i + 1).drop_last() == entries@.take(i as int));
        if entries[i].is_file {
            match entries[i].len {
                Some(len) => {
                    total = crate::plugin::registry::add_clamped(total, len);
                },
                None => {},
            }
        }
        i += 1;
    }
    assert(entries@.take(entries@.len() as int) == entries@);
    total
}

/// The number of regular files that a walk below a path saw.
pub fn count_files(entries: &Vec<WalkedEntry>) -> (r: u64)
    ensures
        r == crate::plugin::registry::clamp_u64(regular_files(entries@)),
{
    let mut count: u64 = 0;
    let mut i: usize = 0;
    while i < entries.len()
        invariant
            i <= entries@.len(),
            count == crate::plugin::registry::clamp_u64(regular_files(entries@.take(i as int))),
        decreases entries.len() - i,
    {
        assert(entries@.take(i + 1).drop_last() == entries@.take(i as int));
        if entries[i].is_file {
            count = crate::plugin::registry::add_clamped(count, 1);
        }
        i += 1;
    }
    assert(entries@.take(entries@.len() as int) == entries@);
    count
}

/// The user's home directory, as `dirs::home_dir` finds it in the
/// environment; `None` where it finds none or its name is no valid text.
#[verifier::external_body]
pub(crate) fn home_dir() -> Option<String> {
    Some(dirs::home_dir()?.to_str()?.to_string())
}

/// The directory under which the scanners look: the user's home directory
/// as the environment names it, or the root directory where it names none.
pub fn home_or_root() -> String {
    root_for(home_dir())
}

/// The directory under which the scanners look when the user's home
/// directory is `home`: that directory, or the root directory without one.
pub fn root_for(home: Option<String>) -> (r: String)
    ensures
        r@ == match home {
            Some(h) => h@,
            None => "/"@,
        },
{
    match home {
        Some(h) => h,
        None => String::from_str("/"),
    }
}

/// `home` extended by each of the relative paths `rels`.
pub open spec fn under_home(home: Seq<char>, rels: Seq<Seq<char>>) -> Seq<Seq<char>> {
    rels.map_values(|rel: Seq<char>| joined(home, rel))
}

/// The views of a vector of string slices.
pub open spec fn slices(v: Seq<&'static str>) -> Seq<Seq<char>> {
    v.map_values(|s: &'static str| s@)
}

/// `home` extended by each of the relative paths `rels`.
pub fn join_all(home: &str, rels: &Vec<&'static str>) -> (r: Vec<String>)
    ensures
        crate::plugin::traits::texts(r@) == under_home(home@, slices(rels@)),
{
    let mut r: Vec<String> = Vec::new();
    let mut i: usize = 0;
    while i < rels.len()
        invariant
            i <= rels@.len(),
            r@.len() == i,
            forall|k: int| 0 <= k < i ==> r@[k]@ == joined(home@, rels@[k]@),
        decreases rels.len() - i,
    {
        r.push(join(home, rels[i]));
        i += 1;
    }
    assert(crate::plugin::traits::texts(r@) =~= under_home(home@, slices(rels@)));
    r
}

/// One place where a scanner looks, with the name it shows for it and the
/// safety level of what is found there.
#[derive(Debug)]
pub struct Location {
    pub label: String,
    pub path: String,
    pub safety: SafetyLevel,
}

/// A location, with its texts as character sequences.
pub struct LocationView {
    pub label: Seq<char>,
    pub path: Seq<char>,
    pub safety: SafetyLevel,
}

impl View for Location {
    type V = LocationView;

    open spec fn view(&self) -> LocationView {
        LocationView { label: self.label@, path: self.path@, safety: self.safety }
    }
}

/// The rows of a table of places: label, path relative to the home
/// directory, safety level.
pub open spec fn rows(v: Seq<(&'static str, &'static str, SafetyLevel)>) -> Seq<
    (Seq<char>, Seq<char>, SafetyLevel),
> {
    v.map_values(|r: (&'static str, &'static str, SafetyLevel)| (r.0@, r.1@, r.2))
}

/// The locations that the rows `table` name under `home`.
pub open spec fn placed(home: Seq<char>, table: Seq<(Seq<char>, Seq<char>, SafetyLevel)>) -> Seq<
    LocationView,
> {
    table.map_values(
        |r: (Seq<char>, Seq<char>, SafetyLevel)|
            LocationView { label: r.0, path: joined(home, r.1), safety: r.2 },
    )
}

/// The locations that the rows `table` name under `home`.
pub fn locate(home: &str, table: &Vec<(&'static str, &'static str, SafetyLevel)>) -> (r: Vec<
    Location,
>)
    ensures
        views(r@) == placed(home@, rows(table@)),
{
    let mut r: Vec<Location> = Vec::new();
    let mut i: usize = 0;
    while i < table.len()
        invariant
            i <= table@.len(),
            r@.len() == i,
            forall|k: int|
                0 <= k < i ==> (#[trigger] r@[k])@ == (LocationView {
                    label: table@[k].0@,
                    path: joined(home@, table@[k].1@),
                    safety: table@[k].2,
                }),
        decreases table.len() - i,
    {
        r.push(
            Location {
                label: String::from_str(table[i].0),
                path: join(home, table[i].1),
                safety: table[i].2,
            },
        );
        i += 1;
    }
    assert(views(r@) =~= placed(home@, rows(table@)));
    r
}

/// The paths of `locations`, in order.
pub fn location_paths(locations: &Vec<Location>) -> (r: Vec<String>)
    ensures
        r@.len() == locations@.len(),
        forall|k: int| 0 <= k < r@.len() ==> (#[trigger] r@[k])@ == locations@[k].path@,
{
    let mut r: Vec<String> = Vec::new();
    let mut i: usize = 0;
    while i < locations.len()
        invariant
            i <= locations@.len(),
            r@.len() == i,
            forall|k: int| 0 <= k < i ==> (#[trigger] r@[k])@ == locations@[k].path@,
        decreases locations.len() - i,
    {
        r.push(locations[i].path.clone());
        i += 1;
    }
    r
}

/// Whether a scanner has anything to look at: one of its locations exists.
/// `exists[i]` says whether the `i`-th location is there.
pub fn any_exists(exists: &Vec<bool>) -> (r: bool)
    ensures
        r == exists@.contains(true),
{
    let mut i: usize = 0;
    while i < exists.len()
        invariant
            i <= exists@.len(),
            forall|k: int| 0 <= k < i ==> !exists@[k],
        decreases exists.len() - i,
    {
        if exists[i] {
            return true;
        }
        i += 1;
    }
    false
}

} // verus!
