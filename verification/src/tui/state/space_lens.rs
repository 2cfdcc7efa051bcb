//! The state of the directory-usage explorer: the children of the directory
//! that is browsed, their sizes as far as they are known, and the snapshots
//! of directories that were visited before.

use crate::collections::{StringMap, StringSet};
use crate::plugin::registry::{add_clamped, clamp_u64};
use crate::sorting::{views, Order, Precedence};
use vstd::prelude::*;

verus! {

/// One immediate child of the browsed directory.
#[derive(Debug)]
pub struct FolderEntry {
    pub name: String,
    pub path: String,
    /// Bytes counted so far; final once `scanning` is false.
    pub size: u64,
    pub is_dir: bool,
    /// The size is still being computed.
    pub scanning: bool,
}

/// An entry, with its texts as character sequences.
pub struct FolderEntryView {
    pub name: Seq<char>,
    pub path: Seq<char>,
    pub size: u64,
    pub is_dir: bool,
    pub scanning: bool,
}

impl View for FolderEntry {
    type V = FolderEntryView;

    open spec fn view(&self) -> FolderEntryView {
        FolderEntryView {
            name: self.name@,
            path: self.path@,
            size: self.size,
            is_dir: self.is_dir,
            scanning: self.scanning,
        }
    }
}

impl Clone for FolderEntry {
    fn clone(&self) -> (r: Self)
        ensures
            r@ == self@,
    {
        FolderEntry {
            name: self.name.clone(),
            path: self.path.clone(),
            size: self.size,
            is_dir: self.is_dir,
            scanning: self.scanning,
        }
    }
}

/// The order of the listing: larger entries stand before smaller ones.
pub struct LargestFirst;

impl Precedence<FolderEntryView> for LargestFirst {
    open spec fn before(a: FolderEntryView, b: FolderEntryView) -> bool {
        a.size > b.size
    }
}

impl Order<FolderEntry> for LargestFirst {
    fn precedes(a: &FolderEntry, b: &FolderEntry) -> (r: bool) {
        a.size > b.size
    }
}

/// Sum of the sizes of `entries`, in bytes.
pub open spec fn entries_size(entries: Seq<FolderEntryView>) -> nat
    decreases entries.len(),
{
    if entries.len() == 0 {
        0
    } else {
        entries_size(entries.drop_last()) + entries.last().size as nat
    }
}

/// Sum of the sizes of `entries`, stopping at the largest 64-bit number.
pub fn total_of(entries: &Vec<FolderEntry>) -> (r: u64)
    ensures
        r == clamp_u64(entries_size(views(entries@))),
{
    let ghost all = views(entries@);
    let mut total: u64 = 0;
    let mut i: usize = 0;
    while i < entries.len()
        invariant
            i <= entries@.len(),
            all == views(entries@),
            total == clamp_u64(entries_size(all.take(i as int))),
        decreases entries.len() - i,
    {
        assert(all.take(i + 1).drop_last() == all.take(i as int));
        assert(all.take(i + 1).last() == entries@[i as int]@);
        total = add_clamped(total, entries[i].size);
        i += 1;
    }
    assert(all.take(entries@.len() as int) == all);
    total
}

/// A copy of `entries`.
pub fn clone_entries(entries: &Vec<FolderEntry>) -> (r: Vec<FolderEntry>)
    ensures
        views(r@) == views(entries@),
{
    let mut r: Vec<FolderEntry> = Vec::new();
    let mut i: usize = 0;
    while i < entries.len()
        invariant
            i <= entries@.len(),
            r@.len() == i,
            forall|k: int| 0 <= k < i ==> r@[k]@ == entries@[k]@,
        decreases entries.len() - i,
    {
        r.push(entries[i].clone());
        i += 1;
    }
    assert(views(r@) =~= views(entries@));
    r
}

/// The listing of a directory as it was when the user left it.
#[derive(Debug)]
pub struct CachedScan {
    pub entries: Vec<FolderEntry>,
    pub total_size: u64,
    /// The snapshot was taken while sizes were still being computed.
    pub was_loading: bool,
}

/// A snapshot, with its entries as views.
pub struct CachedScanView {
    pub entries: Seq<FolderEntryView>,
    pub total_size: u64,
    pub was_loading: bool,
}

impl View for CachedScan {
    type V = CachedScanView;

    open spec fn view(&self) -> CachedScanView {
        CachedScanView {
            entries: views(self.entries@),
            total_size: self.total_size,
            was_loading: self.was_loading,
        }
    }
}

impl Clone for CachedScan {
    fn clone(&self) -> (r: Self)
        ensures
            r@ == self@,
    {
        CachedScan {
            entries: clone_entries(&self.entries),
            total_size: self.total_size,
            was_loading: self.was_loading,
        }
    }
}

/// What came of deleting an entry.
#[derive(Debug)]
pub struct DeleteResult {
    pub path: String,
    pub success: bool,
    /// Bytes freed; 0 where the deletion failed.
    pub size: u64,
    pub error: Option<String>,
}

/// A deletion's result, with its texts as character sequences.
pub struct DeleteResultView {
    pub path: Seq<char>,
    pub success: bool,
    pub size: u64,
    pub error: Option<Seq<char>>,
}

impl View for DeleteResult {
    type V = DeleteResultView;

    open spec fn view(&self) -> DeleteResultView {
        DeleteResultView {
            path: self.path@,
            success: self.success,
            size: self.size,
            error: match self.error {
                Some(e) => Some(e@),
                None => None,
            },
        }
    }
}

/// What the explorer is busy with.
#[derive(Debug, Clone, Copy, PartialEq, Eq, Structural)]
pub enum SpaceLensMode {
    Browse,
    ConfirmDelete,
    ShowResult,
}

/// The state of the explorer.
#[derive(Debug)]
pub struct SpaceLensState {
    pub current_path: String,
    pub entries: Vec<FolderEntry>,
    pub total_size: u64,
    pub loading: bool,
    /// Snapshots of the directories visited, by path.
    pub cache: StringMap<CachedScan>,
    /// Paths of the directories whose scan still has an open channel.
    pub pending_scans: StringSet,
    pub parallel_scan: bool,
    pub thread_count: usize,
    pub delete_mode: SpaceLensMode,
    pub pending_delete: Option<FolderEntry>,
    pub delete_result: Option<DeleteResult>,
}

/// The explorer's state, with every text as a character sequence.
pub struct SpaceLensView {
    pub current_path: Seq<char>,
    pub entries: Seq<FolderEntryView>,
    pub total_size: u64,
    pub loading: bool,
    pub cache: Map<Seq<char>, CachedScanView>,
    pub pending_scans: Set<Seq<char>>,
    pub parallel_scan: bool,
    pub thread_count: usize,
    pub delete_mode: SpaceLensMode,
    pub pending_delete: Option<FolderEntryView>,
    pub delete_result: Option<DeleteResultView>,
}

/// The snapshots of a cache, as views.
pub open spec fn snapshots(cache: Map<Seq<char>, CachedScan>) -> Map<Seq<char>, CachedScanView> {
    cache.map_values(|c: CachedScan| c@)
}

impl View for SpaceLensState {
    type V = SpaceLensView;

    open spec fn view(&self) -> SpaceLensView {
        SpaceLensView {
            current_path: self.current_path@,
            entries: views(self.entries@),
            total_size: self.total_size,
            loading: self.loading,
            cache: snapshots(self.cache@),
            pending_scans: self.pending_scans@,
            parallel_scan: self.parallel_scan,
            thread_count: self.thread_count,
            delete_mode: self.delete_mode,
            pending_delete: match self.pending_delete {
                Some(e) => Some(e@),
                None => None,
            },
            delete_result: match self.delete_result {
                Some(r) => Some(r@),
                None => None,
            },
        }
    }
}

impl SpaceLensView {
    /// The explorer before anything was browsed, at the root directory.
    pub open spec fn initial() -> SpaceLensView {
        SpaceLensView {
            current_path: "/"@,
            entries: Seq::empty(),
            total_size: 0,
            loading: false,
            cache: Map::empty(),
            pending_scans: Set::empty(),
            parallel_scan: true,
            thread_count: 4,
            delete_mode: SpaceLensMode::Browse,
            pending_delete: None,
            delete_result: None,
        }
    }
}

impl Default for SpaceLensState {
    fn default() -> (r: Self)
        ensures
            r@ == SpaceLensView::initial(),
    {
        let r = SpaceLensState {
            current_path: String::from_str("/"),
            entries: Vec::new(),
            total_size: 0,
            loading: false,
            cache: StringMap::new(),
            pending_scans: StringSet::new(),
            parallel_scan: true,
            thread_count: 4,
            delete_mode: SpaceLensMode::Browse,
            pending_delete: None,
            delete_result: None,
        };
        assert(r@.entries =~= Seq::<FolderEntryView>::empty());
        assert(r@.cache =~= Map::<Seq<char>, CachedScanView>::empty());
        r
    }
}

} // verus!
