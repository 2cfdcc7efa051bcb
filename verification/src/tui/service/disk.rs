//! The directory-usage explorer: which children of a directory are sized,
//! which sizes are taken from earlier visits, and what each size update does
//! to the listing.
//!
//! Listing a directory, walking its subtrees and the worker threads are the
//! caller's part. The explorer tells it what to list and what to compute, and
//! takes the results back as plain values.

use crate::paths::{file_name_or, is_under_any, name_or, under_any};
use crate::plugin::registry::{add_clamped, clamp_u64};
use crate::search::{collect, first_match, lemma_first_match_is};
use crate::sorting::{sort_stable, stable_sort, views, Precedence};
use crate::text::str_eq;
use crate::tui::state::space_lens::{
    clone_entries, entries_size, total_of, CachedScan, CachedScanView, FolderEntry,
    FolderEntryView, LargestFirst, SpaceLensState, SpaceLensView,
};
use vstd::prelude::*;

verus! {

/// Subtrees that the explorer never lists or walks.
pub open spec fn excluded_roots() -> Seq<Seq<char>> {
    seq!["/System/Volumes"@, "/Volumes"@, "/dev"@, "/.vol"@]
}

/// `path` lies in a subtree that the explorer leaves out.
pub open spec fn is_excluded(path: Seq<char>) -> bool {
    is_under_any(path, excluded_roots())
}

/// Whether `path` lies in a subtree that the explorer leaves out.
pub fn path_is_excluded(path: &str) -> (r: bool)
    ensures
        r == is_excluded(path@),
{
    let mut roots: Vec<String> = Vec::new();
    roots.push(String::from_str("/System/Volumes"));
    roots.push(String::from_str("/Volumes"));
    roots.push(String::from_str("/dev"));
    roots.push(String::from_str("/.vol"));
    assert(crate::plugin::traits::texts(roots@) =~= excluded_roots());
    under_any(path, &roots)
}

/// Whether a walk goes on into `path`: not into a subtree that is left out,
/// and not through a symbolic link.
pub fn walk_enters(path: &str, is_symlink: bool) -> (r: bool)
    ensures
        r == (!is_excluded(path@) && !is_symlink),
{
    !path_is_excluded(path) && !is_symlink
}

/// The three worker pools, by the thread count that was asked for.
#[derive(Debug, Clone, Copy, PartialEq, Eq, Structural)]
pub enum PoolBucket {
    Small,
    Medium,
    Large,
}

impl PoolBucket {
    /// The pool that serves a request for `pool_size` threads.
    pub open spec fn serving(pool_size: usize) -> PoolBucket {
        if 1 <= pool_size <= 4 {
            PoolBucket::Small
        } else if 5 <= pool_size <= 8 {
            PoolBucket::Medium
        } else {
            PoolBucket::Large
        }
    }

    /// Number of worker threads of the pool.
    pub open spec fn worker_count(self) -> usize {
        match self {
            PoolBucket::Small => 4,
            PoolBucket::Medium => 8,
            PoolBucket::Large => 16,
        }
    }

    /// The pool that serves a request for `pool_size` threads.
    pub fn for_size(pool_size: usize) -> (r: PoolBucket)
        ensures
            r == PoolBucket::serving(pool_size),
    {
        if 1 <= pool_size && pool_size <= 4 {
            PoolBucket::Small
        } else if 5 <= pool_size && pool_size <= 8 {
            PoolBucket::Medium
        } else {
            PoolBucket::Large
        }
    }

    /// Number of worker threads of the pool.
    pub fn threads(self) -> (r: usize)
        ensures
            r == self.worker_count(),
    {
        match self {
            PoolBucket::Small => 4,
            PoolBucket::Medium => 8,
            PoolBucket::Large => 16,
        }
    }
}

/// How many workers of each pool are busy, as read at one moment.
#[derive(Debug, Clone, Copy)]
pub struct ActiveThreads {
    pub small: usize,
    pub medium: usize,
    pub large: usize,
}

/// Number of busy workers of the pool that serves `pool_size` threads.
pub fn get_active_threads(active: &ActiveThreads, pool_size: usize) -> (r: usize)
    ensures
        r == match PoolBucket::serving(pool_size) {
            PoolBucket::Small => active.small,
            PoolBucket::Medium => active.medium,
            PoolBucket::Large => active.large,
        },
{
    match PoolBucket::for_size(pool_size) {
        PoolBucket::Small => active.small,
        PoolBucket::Medium => active.medium,
        PoolBucket::Large => active.large,
    }
}

/// What has to happen after a directory was entered.
#[derive(Debug, Clone, Copy, PartialEq, Eq, Structural)]
pub enum ScanStart {
    /// The listing comes from an earlier, finished visit. Nothing is listed
    /// and nothing is computed.
    UseCache,
    /// A scan of this directory is running already; its updates go on.
    AlreadyScanning,
    /// A new scan session begins: the directory is to be listed and the
    /// listing handed to `plan_scan`.
    ListDirectory,
}

/// The state after the directory `s.current_path` was entered, and what has
/// to happen next.
pub open spec fn started(s: SpaceLensView) -> (SpaceLensView, ScanStart) {
    let known = s.cache.dom().contains(s.current_path);
    let shown = if known {
        SpaceLensView {
            entries: s.cache[s.current_path].entries,
            total_size: s.cache[s.current_path].total_size,
            ..s
        }
    } else {
        SpaceLensView { entries: Seq::empty(), total_size: 0, ..s }
    };
    if known && !s.cache[s.current_path].was_loading {
        (SpaceLensView { loading: false, ..shown }, ScanStart::UseCache)
    } else {
        let pending = if s.parallel_scan {
            s.pending_scans
        } else if s.pending_scans.contains(s.current_path) {
            Set::empty().insert(s.current_path)
        } else {
            Set::empty()
        };
        if pending.contains(s.current_path) {
            (
                SpaceLensView { loading: true, pending_scans: pending, ..shown },
                ScanStart::AlreadyScanning,
            )
        } else {
            (
                SpaceLensView {
                    loading: true,
                    pending_scans: pending.insert(s.current_path),
                    ..shown
                },
                ScanStart::ListDirectory,
            )
        }
    }
}

/// Enters the directory `state.current_path`: shows what is known of it, and
/// says what has to happen next.
pub fn start_space_scan(state: &mut SpaceLensState) -> (r: ScanStart)
    ensures
        (final(state)@, r) == started(old(state)@),
{
    let rescan = match state.cache.get(state.current_path.as_str()) {
        Some(cached) => {
            let entries = clone_entries(&cached.entries);
            let total_size = cached.total_size;
            let was_loading = cached.was_loading;
            state.entries = entries;
            state.total_size = total_size;
            was_loading
        },
        None => {
            state.entries = Vec::new();
            state.total_size = 0;
            assert(views(state.entries@) =~= Seq::<FolderEntryView>::empty());
            true
        },
    };
    if !rescan {
        state.loading = false;
        return ScanStart::UseCache;
    }
    let running = state.pending_scans.contains(state.current_path.as_str());
    if !state.parallel_scan {
        state.pending_scans.clear();
        if running {
            state.pending_scans.insert(state.current_path.clone());
        }
    }
    state.loading = true;
    if running {
        ScanStart::AlreadyScanning
    } else {
        state.pending_scans.insert(state.current_path.clone());
        ScanStart::ListDirectory
    }
}

/// Entering a directory whose snapshot is complete shows the snapshot's
/// entries and total, marks nothing as loading, and asks for no listing and
/// no computation; the snapshots and the running scans stay as they are.
pub proof fn lemma_complete_snapshot_is_reused(s: SpaceLensView)
    requires
        s.cache.dom().contains(s.current_path),
        !s.cache[s.current_path].was_loading,
    ensures
        started(s).1 == ScanStart::UseCache,
        started(s).0.entries == s.cache[s.current_path].entries,
        started(s).0.total_size == s.cache[s.current_path].total_size,
        !started(s).0.loading,
        started(s).0.cache == s.cache,
        started(s).0.pending_scans == s.pending_scans,
{
}

/// Entering the same directory again gives the same listing again.
pub proof fn lemma_reentry_is_stable(s: SpaceLensView)
    requires
        s.cache.dom().contains(s.current_path),
        !s.cache[s.current_path].was_loading,
    ensures
        started(started(s).0) == started(s),
{
}

/// Position of the first entry with the path `path`, or the number of
/// entries if there is none.
pub open spec fn position_by_path(entries: Seq<FolderEntryView>, path: Seq<char>) -> int {
    first_match(entries, |e: FolderEntryView| e.path == path)
}

/// The entry for `path` is listed and its size is final.
pub open spec fn is_complete(entries: Seq<FolderEntryView>, path: Seq<char>) -> bool {
    let p = position_by_path(entries, path);
    p < entries.len() && !entries[p].scanning
}

fn find_entry(entries: &Vec<FolderEntry>, path: &str) -> (i: usize)
    ensures
        i == position_by_path(views(entries@), path@),
        i <= entries@.len(),
{
    let ghost all = views(entries@);
    let mut i: usize = 0;
    while i < entries.len() && !str_eq(entries[i].path.as_str(), path)
        invariant
            i <= entries@.len(),
            all == views(entries@),
            forall|k: int| 0 <= k < i ==> (#[trigger] all[k]).path != path@,
        decreases entries.len() - i,
    {
        i += 1;
    }
    proof {
        lemma_first_match_is(all, |e: FolderEntryView| e.path == path@, i as int);
    }
    i
}

/// One child of a directory, as the directory's listing shows it.
#[derive(Debug)]
pub struct ChildInfo {
    pub path: String,
    pub is_dir: bool,
    pub is_symlink: bool,
    /// The child is a directory on another device than its parent.
    pub is_mount: bool,
}

/// A child, with its path as a character sequence.
pub struct ChildInfoView {
    pub path: Seq<char>,
    pub is_dir: bool,
    pub is_symlink: bool,
    pub is_mount: bool,
}

impl View for ChildInfo {
    type V = ChildInfoView;

    open spec fn view(&self) -> ChildInfoView {
        ChildInfoView {
            path: self.path@,
            is_dir: self.is_dir,
            is_symlink: self.is_symlink,
            is_mount: self.is_mount,
        }
    }
}

impl ChildInfoView {
    /// The child is shown: it is no symbolic link, no mount point, and lies
    /// in no subtree that is left out.
    pub open spec fn is_listed(self) -> bool {
        !is_excluded(self.path) && !self.is_symlink && !self.is_mount
    }

    /// The name under which the child is shown.
    pub open spec fn shown_name(self) -> Seq<char> {
        name_or(self.path, "?"@)
    }

    /// The entry that stands for the child until its size is known.
    pub open spec fn placeholder(self) -> FolderEntryView {
        FolderEntryView {
            name: self.shown_name(),
            path: self.path,
            size: 0,
            is_dir: self.is_dir,
            scanning: true,
        }
    }
}

/// The computation of one child's size.
#[derive(Debug)]
pub struct ScanJob {
    pub path: String,
    pub name: String,
    pub is_dir: bool,
}

/// A job, with its texts as character sequences.
pub struct ScanJobView {
    pub path: Seq<char>,
    pub name: Seq<char>,
    pub is_dir: bool,
}

impl View for ScanJob {
    type V = ScanJobView;

    open spec fn view(&self) -> ScanJobView {
        ScanJobView { path: self.path@, name: self.name@, is_dir: self.is_dir }
    }
}

/// What is to be done for one child.
#[derive(Debug)]
pub enum WorkItem {
    /// The size is known from a finished scan of the child: report this.
    Reuse(FolderEntry),
    /// A file: read its length and report it at once.
    SizeFile(ScanJob),
    /// A directory: hand the job to a worker.
    Submit(ScanJob),
}

/// A work item as a view.
pub enum WorkItemView {
    Reuse(FolderEntryView),
    SizeFile(ScanJobView),
    Submit(ScanJobView),
}

impl View for WorkItem {
    type V = WorkItemView;

    open spec fn view(&self) -> WorkItemView {
        match self {
            WorkItem::Reuse(e) => WorkItemView::Reuse(e@),
            WorkItem::SizeFile(j) => WorkItemView::SizeFile(j@),
            WorkItem::Submit(j) => WorkItemView::Submit(j@),
        }
    }
}

/// What a scan session starts with.
#[derive(Debug)]
pub struct ScanPlan {
    /// Entries to show at once, with size 0 and still scanning.
    pub placeholders: Vec<FolderEntry>,
    /// The work, child by child in the order of the listing.
    pub work: Vec<WorkItem>,
}

/// The placeholder for `child`, if one is shown: for a listed child whose
/// size is not final yet.
pub open spec fn placeholder_for(s: SpaceLensView, child: ChildInfoView) -> Option<
    FolderEntryView,
> {
    if child.is_listed() && !is_complete(s.entries, child.path) {
        Some(child.placeholder())
    } else {
        None
    }
}

/// The work for `child`, if there is any: nothing for a child that is not
/// listed or whose size is final; for a file, to read its length; for a
/// directory, the cached total where its own scan was finished, a job
/// otherwise.
pub open spec fn work_for(s: SpaceLensView, child: ChildInfoView) -> Option<WorkItemView> {
    let job = ScanJobView { path: child.path, name: child.shown_name(), is_dir: child.is_dir };
    if !child.is_listed() || is_complete(s.entries, child.path) {
        None
    } else if !child.is_dir {
        Some(WorkItemView::SizeFile(job))
    } else if s.cache.dom().contains(child.path) && !s.cache[child.path].was_loading {
        Some(
            WorkItemView::Reuse(
                FolderEntryView {
                    name: child.shown_name(),
                    path: child.path,
                    size: s.cache[child.path].total_size,
                    is_dir: true,
                    scanning: false,
                },
            ),
        )
    } else {
        Some(WorkItemView::Submit(job))
    }
}

/// A scan that is taken up again computes only what is missing: for a child
/// whose size is final in the listing nothing is shown anew and nothing is
/// computed, and neither for a child that is not listed.
pub proof fn lemma_resume_computes_only_the_delta(s: SpaceLensView, child: ChildInfoView)
    requires
        is_complete(s.entries, child.path) || !child.is_listed(),
    ensures
        placeholder_for(s, child) is None,
        work_for(s, child) is None,
{
}

/// A child whose size is not final gets exactly one piece of work and one
/// placeholder; only a directory is handed to a worker, and only where no
/// finished scan of it is known.
pub proof fn lemma_missing_child_is_computed(s: SpaceLensView, child: ChildInfoView)
    requires
        child.is_listed(),
        !is_complete(s.entries, child.path),
    ensures
        placeholder_for(s, child) == Some(child.placeholder()),
        work_for(s, child) is Some,
        work_for(s, child)->0 is Submit <==> child.is_dir && !(s.cache.dom().contains(child.path)
            && !s.cache[child.path].was_loading),
        work_for(s, child)->0 is SizeFile <==> !child.is_dir,
{
}

/// The placeholders for the children of the browsed directory.
pub open spec fn placeholders(s: SpaceLensView, children: Seq<ChildInfoView>) -> Seq<
    FolderEntryView,
> {
    collect(children, |c: ChildInfoView| placeholder_for(s, c))
}

/// The work for the children of the browsed directory.
pub open spec fn work_items(s: SpaceLensView, children: Seq<ChildInfoView>) -> Seq<WorkItemView> {
    collect(children, |c: ChildInfoView| work_for(s, c))
}

/// Plans the scan session of the browsed directory from its listing.
pub fn plan_scan(state: &SpaceLensState, children: &Vec<ChildInfo>) -> (plan: ScanPlan)
    ensures
        views(plan.placeholders@) == placeholders(state@, views(children@)),
        views(plan.work@) == work_items(state@, views(children@)),
{
    let ghost s = state@;
    let ghost all = views(children@);
    let ghost shown = |c: ChildInfoView| placeholder_for(s, c);
    let ghost planned = |c: ChildInfoView| work_for(s, c);
    let mut holders: Vec<FolderEntry> = Vec::new();
    let mut work: Vec<WorkItem> = Vec::new();
    let mut i: usize = 0;
    assert(views(holders@) =~= collect(all.take(0), shown));
    assert(views(work@) =~= collect(all.take(0), planned));
    while i < children.len()
        invariant
            i <= children@.len(),
            s == state@,
            all == views(children@),
            shown == |c: ChildInfoView| placeholder_for(s, c),
            planned == |c: ChildInfoView| work_for(s, c),
            views(holders@) == collect(all.take(i as int), shown),
            views(work@) == collect(all.take(i as int), planned),
        decreases children.len() - i,
    {
        let child = &children[i];
        proof {
            assert(all.take(i + 1).drop_last() == all.take(i as int));
            assert(all.take(i + 1).last() == child@);
        }
        let ghost holders_before = holders@;
        let ghost work_before = work@;
        let listed = !path_is_excluded(child.path.as_str()) && !child.is_symlink
            && !child.is_mount;
        if listed {
            let p = find_entry(&state.entries, child.path.as_str());
            let complete = p < state.entries.len() && !state.entries[p].scanning;
            assert(complete == is_complete(s.entries, child@.path));
            if !complete {
                let name = file_name_or(child.path.as_str(), "?");
                let holder = FolderEntry {
                    name: name.clone(),
                    path: child.path.clone(),
                    size: 0,
                    is_dir: child.is_dir,
                    scanning: true,
                };
                holders.push(holder);
                assert(views(holders@) =~= views(holders_before).push(holder@));
                let reused: Option<u64> = match state.cache.get(child.path.as_str()) {
                    Some(cached) => if cached.was_loading {
                        None
                    } else {
                        Some(cached.total_size)
                    },
                    None => None,
                };
                let item = if !child.is_dir {
                    WorkItem::SizeFile(ScanJob { path: child.path.clone(), name, is_dir: false })
                } else {
                    match reused {
                        Some(size) => WorkItem::Reuse(
                            FolderEntry {
                                name,
                                path: child.path.clone(),
                                size,
                                is_dir: true,
                                scanning: false,
                            },
                        ),
                        None => WorkItem::Submit(
                            ScanJob { path: child.path.clone(), name, is_dir: true },
                        ),
                    }
                };
                work.push(item);
                assert(views(work@) =~= views(work_before).push(item@));
            }
        }
        i += 1;
    }
    assert(all.take(children@.len() as int) == all);
    ScanPlan { placeholders: holders, work }
}

/// The running total of one directory's walk.
#[derive(Debug)]
pub struct WalkTotal {
    job: ScanJob,
    current_size: u64,
}

impl WalkTotal {
    /// The job that is computed.
    pub closed spec fn job(&self) -> ScanJobView {
        self.job@
    }

    /// Bytes counted so far.
    pub closed spec fn counted(&self) -> u64 {
        self.current_size
    }

    /// The update that reports `size` bytes for the job.
    pub open spec fn update(job: ScanJobView, size: u64, scanning: bool) -> FolderEntryView {
        FolderEntryView { name: job.name, path: job.path, size, is_dir: job.is_dir, scanning }
    }

    /// A walk that has counted nothing yet.
    pub fn new(job: ScanJob) -> (r: Self)
        ensures
            r.job() == job@,
            r.counted() == 0,
    {
        WalkTotal { job, current_size: 0 }
    }

    /// Counts a file of `len` bytes; returns the update to send. The size
    /// reported never goes down.
    pub fn add_file(&mut self, len: u64) -> (update: FolderEntry)
        ensures
            final(self).job() == old(self).job(),
            final(self).counted() == clamp_u64((old(self).counted() + len) as nat),
            final(self).counted() >= old(self).counted(),
            update@ == Self::update(old(self).job(), final(self).counted(), true),
    {
        self.current_size = add_clamped(self.current_size, len);
        FolderEntry {
            name: self.job.name.clone(),
            path: self.job.path.clone(),
            size: self.current_size,
            is_dir: self.job.is_dir,
            scanning: true,
        }
    }

    /// Ends the walk; returns the update that reports the final size.
    pub fn finish(self) -> (update: FolderEntry)
        ensures
            update@ == Self::update(self.job(), self.counted(), false),
    {
        FolderEntry {
            name: self.job.name,
            path: self.job.path,
            size: self.current_size,
            is_dir: self.job.is_dir,
            scanning: false,
        }
    }
}

/// The update that reports a file of `len` bytes, complete at once.
pub fn file_entry(job: ScanJob, len: u64) -> (update: FolderEntry)
    ensures
        update@ == WalkTotal::update(job@, len, false),
{
    FolderEntry { name: job.name, path: job.path, size: len, is_dir: job.is_dir, scanning: false }
}

/// The size that an entry of `shown` bytes shows after an update: a final
/// update gives the size, whatever was shown; while the scan goes on the
/// size shown never falls.
pub open spec fn merged_size(shown: u64, update: FolderEntryView) -> u64 {
    if !update.scanning || update.size > shown {
        update.size
    } else {
        shown
    }
}

/// The listing with `update` taken in: the first entry of the same path gets
/// the update's state and the size that follows from it; without such an
/// entry the update comes last.
pub open spec fn merged(entries: Seq<FolderEntryView>, update: FolderEntryView) -> Seq<
    FolderEntryView,
> {
    let p = position_by_path(entries, update.path);
    if p < entries.len() {
        entries.update(
            p,
            FolderEntryView {
                size: merged_size(entries[p].size, update),
                scanning: update.scanning,
                ..entries[p]
            },
        )
    } else {
        entries.push(update)
    }
}

/// The final update of a child is the only word on its size: the entry
/// shows exactly that size and is no longer scanning, whatever it showed
/// before. An update of a running scan never lets the size shown fall.
pub proof fn lemma_update_sets_the_size(entries: Seq<FolderEntryView>, update: FolderEntryView)
    ensures
        position_by_path(merged(entries, update), update.path) == position_by_path(
            entries,
            update.path,
        ),
        position_by_path(entries, update.path) < merged(entries, update).len(),
        merged(entries, update)[position_by_path(entries, update.path)].scanning
            == update.scanning,
        !update.scanning ==> merged(entries, update)[position_by_path(
            entries,
            update.path,
        )].size == update.size,
        update.scanning && position_by_path(entries, update.path) < entries.len() ==> merged(
            entries,
            update,
        )[position_by_path(entries, update.path)].size >= entries[position_by_path(
            entries,
            update.path,
        )].size,
        merged(entries, update)[position_by_path(entries, update.path)].size >= update.size,
{
    let p = position_by_path(entries, update.path);
    let found = |e: FolderEntryView| e.path == update.path;
    crate::search::lemma_first_match(entries, found);
    let after = merged(entries, update);
    assert forall|k: int| 0 <= k < p implies !found(#[trigger] after[k]) by {
        assert(after[k] == entries[k]);
    }
    lemma_first_match_is(after, found, p);
}

/// The state after `update` arrived from the scan of `scan_path`: updates of
/// another directory than the browsed one are dropped; others are merged into
/// the listing, which is then ordered by size, largest first, and summed.
pub open spec fn applied(
    s: SpaceLensView,
    scan_path: Seq<char>,
    update: FolderEntryView,
) -> SpaceLensView {
    if scan_path != s.current_path {
        s
    } else {
        let listing = stable_sort::<FolderEntryView, LargestFirst>(merged(s.entries, update));
        SpaceLensView { entries: listing, total_size: clamp_u64(entries_size(listing)), ..s }
    }
}

/// After an update of the browsed directory the listing is ordered by size,
/// largest first, holds as many entries as the merged listing, and the total
/// is the sum of the sizes shown.
pub proof fn lemma_listing_is_ordered(s: SpaceLensView, update: FolderEntryView)
    ensures
        forall|i: int, j: int|
            0 <= i < j < applied(s, s.current_path, update).entries.len() ==> applied(
                s,
                s.current_path,
                update,
            ).entries[i].size >= applied(s, s.current_path, update).entries[j].size,
        applied(s, s.current_path, update).entries.len() == merged(s.entries, update).len(),
        applied(s, s.current_path, update).total_size == clamp_u64(
            entries_size(applied(s, s.current_path, update).entries),
        ),
{
    let listing = stable_sort::<FolderEntryView, LargestFirst>(merged(s.entries, update));
    assert(crate::sorting::is_consistent::<FolderEntryView, LargestFirst>());
    crate::sorting::lemma_stable_sort_ordered::<FolderEntryView, LargestFirst>(
        merged(s.entries, update),
    );
    crate::sorting::lemma_stable_sort_permutes::<FolderEntryView, LargestFirst>(
        merged(s.entries, update),
    );
    assert forall|i: int, j: int| 0 <= i < j < listing.len() implies listing[i].size
        >= listing[j].size by {
        assert(!LargestFirst::before(listing[j], listing[i]));
    }
}

/// An update of a directory that is not browsed changes nothing.
pub proof fn lemma_foreign_update_is_dropped(
    s: SpaceLensView,
    scan_path: Seq<char>,
    update: FolderEntryView,
)
    requires
        scan_path != s.current_path,
    ensures
        applied(s, scan_path, update) == s,
{
}

/// A directory whose scan closed while it was browsed is shown from its
/// snapshot when it is entered again: the same entries and total, and no
/// work is asked for.
pub proof fn lemma_closed_scan_is_reused(s: SpaceLensView)
    ensures
        started(closed(s, s.current_path)).1 == ScanStart::UseCache,
        started(closed(s, s.current_path)).0.entries == s.entries,
        started(closed(s, s.current_path)).0.total_size == s.total_size,
        !started(closed(s, s.current_path)).0.loading,
{
}

/// After an entry was deleted, the next visit of the browsed directory
/// does not use a snapshot: the directory is scanned anew or its running
/// scan goes on.
pub proof fn lemma_deletion_forces_rescan(s: SpaceLensView, path: Seq<char>)
    ensures
        started(entry_removed(s, path)).1 != ScanStart::UseCache,
        !entry_removed(s, path).cache.dom().contains(s.current_path),
{
}

/// A deletion leaves the snapshots of all other directories as they are,
/// those of the directories above the browsed one too: their totals still
/// count what was deleted until they are scanned anew.
pub proof fn lemma_deletion_keeps_other_snapshots(
    s: SpaceLensView,
    path: Seq<char>,
    other: Seq<char>,
)
    requires
        other != s.current_path,
    ensures
        entry_removed(s, path).cache.dom().contains(other) == s.cache.dom().contains(other),
        s.cache.dom().contains(other) ==> entry_removed(s, path).cache[other] == s.cache[other],
{
}

/// Takes in an update of the scan of `scan_path`.
pub fn apply_entry(state: &mut SpaceLensState, scan_path: &str, update: FolderEntry)
    ensures
        final(state)@ == applied(old(state)@, scan_path@, update@),
{
    if !str_eq(scan_path, state.current_path.as_str()) {
        return;
    }
    let ghost before = views(state.entries@);
    let p = find_entry(&state.entries, update.path.as_str());
    if p < state.entries.len() {
        let prior = state.entries.remove(p);
        let size = if !update.scanning || update.size > prior.size {
            update.size
        } else {
            prior.size
        };
        let entry = FolderEntry {
            name: prior.name,
            path: prior.path,
            size,
            is_dir: prior.is_dir,
            scanning: update.scanning,
        };
        state.entries.insert(p, entry);
        assert(views(state.entries@) =~= merged(before, update@));
    } else {
        state.entries.push(update);
        assert(views(state.entries@) =~= merged(before, update@));
    }
    sort_stable::<FolderEntry, LargestFirst>(&mut state.entries);
    state.total_size = total_of(&state.entries);
}

/// The state after the scan of `scan_path` closed its channel: the scan is
/// no longer pending; if it was the scan of the browsed directory, loading
/// ends and the listing is kept as that directory's complete snapshot.
pub open spec fn closed(s: SpaceLensView, scan_path: Seq<char>) -> SpaceLensView {
    let pending = s.pending_scans.remove(scan_path);
    if scan_path == s.current_path {
        SpaceLensView {
            loading: false,
            pending_scans: pending,
            cache: s.cache.insert(
                s.current_path,
                CachedScanView { entries: s.entries, total_size: s.total_size, was_loading: false },
            ),
            ..s
        }
    } else {
        SpaceLensView { pending_scans: pending, ..s }
    }
}

/// Takes in the end of the scan of `scan_path`.
pub fn scan_closed(state: &mut SpaceLensState, scan_path: &str)
    ensures
        final(state)@ == closed(old(state)@, scan_path@),
{
    state.pending_scans.remove(scan_path);
    if str_eq(scan_path, state.current_path.as_str()) {
        state.loading = false;
        let snapshot = CachedScan {
            entries: clone_entries(&state.entries),
            total_size: state.total_size,
            was_loading: false,
        };
        state.cache.insert(state.current_path.clone(), snapshot);
        assert(final(state)@.cache =~= closed(old(state)@, scan_path@).cache);
    }
}

/// What a scan's channel delivered.
#[derive(Debug)]
pub enum ScanEvent {
    /// An update for one child, from the scan of the directory `scan_path`.
    Update { scan_path: String, entry: FolderEntry },
    /// The scan of `scan_path` has no sender left.
    Closed { scan_path: String },
}

/// An event as a view.
pub enum ScanEventView {
    Update { scan_path: Seq<char>, entry: FolderEntryView },
    Closed { scan_path: Seq<char> },
}

impl View for ScanEvent {
    type V = ScanEventView;

    open spec fn view(&self) -> ScanEventView {
        match self {
            ScanEvent::Update { scan_path, entry } => ScanEventView::Update {
                scan_path: scan_path@,
                entry: entry@,
            },
            ScanEvent::Closed { scan_path } => ScanEventView::Closed { scan_path: scan_path@ },
        }
    }
}

/// The state after the events `events`, taken in order.
pub open spec fn polled(s: SpaceLensView, events: Seq<ScanEventView>) -> SpaceLensView
    decreases events.len(),
{
    if events.len() == 0 {
        s
    } else {
        let before = polled(s, events.drop_last());
        match events.last() {
            ScanEventView::Update { scan_path, entry } => applied(before, scan_path, entry),
            ScanEventView::Closed { scan_path } => closed(before, scan_path),
        }
    }
}

/// Takes in what the channels of the running scans delivered since the last
/// call, in the order of arrival.
pub fn poll_space_sizes(state: &mut SpaceLensState, events: Vec<ScanEvent>)
    ensures
        final(state)@ == polled(old(state)@, views(events@)),
{
    let ghost all = views(events@);
    let ghost start = state@;
    let mut rest = crate::plugin::registry::reversed(events);
    let mut done: usize = 0;
    assert(all.take(0) =~= Seq::<ScanEventView>::empty());
    assert(all.len() == rest.len());
    while rest.len() > 0
        invariant
            done + rest@.len() == all.len(),
            all.len() <= usize::MAX,
            forall|j: int| 0 <= j < rest@.len() ==> (#[trigger] rest@[j])@ == all[all.len() - 1 - j],
            state@ == polled(start, all.take(done as int)),
        decreases rest.len(),
    {
        let event = rest.pop().unwrap();
        proof {
            assert(event@ == all[done as int]);
            assert(all.take(done + 1).drop_last() == all.take(done as int));
            assert(all.take(done + 1).last() == event@);
        }
        match event {
            ScanEvent::Update { scan_path, entry } => {
                apply_entry(state, scan_path.as_str(), entry);
            },
            ScanEvent::Closed { scan_path } => {
                scan_closed(state, scan_path.as_str());
            },
        }
        done += 1;
    }
    assert(all.take(done as int) == all);
}

/// The state after the browsed directory was left: its snapshot is the
/// listing as it stands, whatever the state of its entries and also where
/// it has none, with the total shown and the mark whether a scan was still
/// filling it. A snapshot that the directory had before is replaced.
pub open spec fn snapshot_taken(s: SpaceLensView) -> SpaceLensView {
    SpaceLensView {
        cache: s.cache.insert(
            s.current_path,
            CachedScanView { entries: s.entries, total_size: s.total_size, was_loading: s.loading },
        ),
        ..s
    }
}

/// Keeps the listing of the browsed directory before the user leaves it.
pub fn cache_current_if_needed(state: &mut SpaceLensState)
    ensures
        final(state)@ == snapshot_taken(old(state)@),
{
    let snapshot = CachedScan {
        entries: clone_entries(&state.entries),
        total_size: state.total_size,
        was_loading: state.loading,
    };
    state.cache.insert(state.current_path.clone(), snapshot);
    assert(final(state)@.cache =~= snapshot_taken(old(state)@).cache);
}

/// Leaving a directory changes nothing but its own snapshot, and the
/// snapshot taken is the listing of that moment: coming back shows the same
/// entries and total, and asks for work only where a scan was still filling
/// the listing. A directory that was scanned to its end and is empty is
/// shown from its snapshot like any other.
pub proof fn lemma_leaving_keeps_the_listing(s: SpaceLensView, other: Seq<char>)
    ensures
        snapshot_taken(s).entries == s.entries,
        snapshot_taken(s).total_size == s.total_size,
        snapshot_taken(s).loading == s.loading,
        snapshot_taken(s).cache[s.current_path] == (CachedScanView {
            entries: s.entries,
            total_size: s.total_size,
            was_loading: s.loading,
        }),
        other != s.current_path ==> snapshot_taken(s).cache.dom().contains(other)
            == s.cache.dom().contains(other),
        other != s.current_path && s.cache.dom().contains(other) ==> snapshot_taken(s).cache[other]
            == s.cache[other],
        started(snapshot_taken(s)).0.entries == s.entries,
        started(snapshot_taken(s)).0.total_size == s.total_size,
        (started(snapshot_taken(s)).1 == ScanStart::UseCache) == !s.loading,
{
}

/// The entries of `entries` whose path is not `path`, in their order.
pub open spec fn without_path(entries: Seq<FolderEntryView>, path: Seq<char>) -> Seq<
    FolderEntryView,
> {
    entries.filter(|e: FolderEntryView| e.path != path)
}

/// The state after the entry with the path `path` was deleted: it is gone
/// from the listing, the total is the sum of what is left, and the snapshot
/// of the browsed directory is dropped. No other snapshot changes.
pub open spec fn entry_removed(s: SpaceLensView, path: Seq<char>) -> SpaceLensView {
    let left = without_path(s.entries, path);
    SpaceLensView {
        entries: left,
        total_size: clamp_u64(entries_size(left)),
        cache: s.cache.remove(s.current_path),
        ..s
    }
}

/// Takes the entry with the path `path` out of the listing.
pub fn remove_entry(state: &mut SpaceLensState, path: &str)
    ensures
        final(state)@ == entry_removed(old(state)@, path@),
{
    let ghost before = views(state.entries@);
    let ghost keep = |e: FolderEntryView| e.path != path@;
    let mut taken: Vec<FolderEntry> = Vec::new();
    core::mem::swap(&mut state.entries, &mut taken);
    let mut rest = crate::plugin::registry::reversed(taken);
    let mut kept: Vec<FolderEntry> = Vec::new();
    let mut done: usize = 0;
    proof {
        reveal(Seq::filter);
        assert(before.take(0).filter(keep) =~= views(kept@));
        assert(before.len() == rest.len());
    }
    while rest.len() > 0
        invariant
            done + rest@.len() == before.len(),
            before.len() <= usize::MAX,
            forall|j: int|
                0 <= j < rest@.len() ==> (#[trigger] rest@[j])@ == before[before.len() - 1 - j],
            views(kept@) == before.take(done as int).filter(keep),
            keep == |e: FolderEntryView| e.path != path@,
        decreases rest.len(),
    {
        let entry = rest.pop().unwrap();
        let ghost kept_before = kept@;
        proof {
            reveal(Seq::filter);
            assert(entry@ == before[done as int]);
            assert(before.take(done + 1).drop_last() == before.take(done as int));
            assert(before.take(done + 1).last() == entry@);
        }
        if !str_eq(entry.path.as_str(), path) {
            kept.push(entry);
            assert(views(kept@) =~= views(kept_before).push(entry@));
        }
        done += 1;
    }
    assert(before.take(done as int) == before);
    state.total_size = total_of(&kept);
    state.entries = kept;
    state.cache.remove(state.current_path.as_str());
    assert(final(state)@.cache =~= entry_removed(old(state)@, path@).cache);
}

} // verus!
