//! Files that hold the same bytes as another file.
//!
//! Files are compared by size first and by the digest of their content
//! second, so that only files that share their size with another are ever
//! read. Of the files with the same content the oldest counts as the
//! original; the others are reported together as one finding.

use super::{join_all, keep_largest, largest, slices, under_home, MAX_FINDINGS};
use crate::decimal::{decimal, decimal_string};
use crate::paths::{file_name_or, has_dot_name, is_dot_name, is_under_any, name_or, under_any};
use crate::plugin::registry::{add_clamped, clamp_u64};
use crate::plugin::traits::texts;
use crate::plugin::{
    SafetyLevel, ScanConfig, ScanConfigView, ScanResult, ScanResultView, ScannerCategory,
};
use crate::search::{first_match, lemma_first_match_is};
use crate::sorting::{sort_stable, stable_sort, views, Order, Precedence};
use crate::text::{concat4, join_with, joined_by, str_eq};
use crate::time::Timestamp;
use vstd::prelude::*;

verus! {

/// Files smaller than this many bytes are never compared.
pub const MIN_SIZE: u64 = 1024;

/// A file whose content was read and digested.
#[derive(Debug)]
pub struct HashedFile {
    pub path: String,
    pub size: u64,
    /// The digest of the file's content.
    pub hash: String,
    pub last_accessed: Option<Timestamp>,
    pub last_modified: Option<Timestamp>,
}

/// A digested file, with its texts as character sequences.
pub struct HashedFileView {
    pub path: Seq<char>,
    pub size: u64,
    pub hash: Seq<char>,
    pub last_accessed: Option<Timestamp>,
    pub last_modified: Option<Timestamp>,
}

impl View for HashedFile {
    type V = HashedFileView;

    open spec fn view(&self) -> HashedFileView {
        HashedFileView {
            path: self.path@,
            size: self.size,
            hash: self.hash@,
            last_accessed: self.last_accessed,
            last_modified: self.last_modified,
        }
    }
}

impl Clone for HashedFile {
    fn clone(&self) -> (r: Self)
        ensures
            r@ == self@,
    {
        HashedFile {
            path: self.path.clone(),
            size: self.size,
            hash: self.hash.clone(),
            last_accessed: self.last_accessed,
            last_modified: self.last_modified,
        }
    }
}

impl HashedFileView {
    /// When the file was last written; the start of 1970 where that is not
    /// known.
    pub open spec fn written(self) -> Timestamp {
        match self.last_modified {
            Some(t) => t,
            None => Timestamp::epoch(),
        }
    }

    /// The two files hold the same bytes: same size, same digest.
    pub open spec fn same_content(self, other: HashedFileView) -> bool {
        self.size == other.size && self.hash == other.hash
    }
}

/// The order within a group of copies: files written earlier come first.
pub struct OldestFirst;

impl Precedence<HashedFileView> for OldestFirst {
    open spec fn before(a: HashedFileView, b: HashedFileView) -> bool {
        a.written().is_before(b.written())
    }
}

impl Order<HashedFile> for OldestFirst {
    fn precedes(a: &HashedFile, b: &HashedFile) -> (r: bool) {
        let ta = match a.last_modified {
            Some(t) => t,
            None => Timestamp { secs: 0, nanos: 0 },
        };
        let tb = match b.last_modified {
            Some(t) => t,
            None => Timestamp { secs: 0, nanos: 0 },
        };
        ta.earlier_than(&tb)
    }
}

/// The files of `files` with the content of `f`, in their order.
pub open spec fn copies_of(files: Seq<HashedFileView>, f: HashedFileView) -> Seq<HashedFileView> {
    files.filter(|g: HashedFileView| g.same_content(f))
}

/// The file at position `i` is the first with its content, and not the
/// only one.
pub open spec fn leads(files: Seq<HashedFileView>, i: int) -> bool {
    &&& first_match(files, |g: HashedFileView| g.same_content(files[i])) == i
    &&& copies_of(files, files[i]).len() >= 2
}

/// Sum of the sizes of `files`.
pub open spec fn sizes_sum(files: Seq<HashedFileView>) -> nat
    decreases files.len(),
{
    if files.len() == 0 {
        0
    } else {
        sizes_sum(files.drop_last()) + files.last().size as nat
    }
}

/// The paths of `files`.
pub open spec fn paths_of(files: Seq<HashedFileView>) -> Seq<Seq<char>> {
    files.map_values(|f: HashedFileView| f.path)
}

/// The finding for the `k`-th group of copies: the oldest file is the
/// original and names the finding; the others are the duplicates, whose
/// sizes the finding adds up and whose paths its metadata lists.
pub open spec fn group_finding(group: Seq<HashedFileView>, k: nat) -> ScanResultView {
    let by_age = stable_sort::<HashedFileView, OldestFirst>(group);
    let original = by_age[0];
    let duplicates = by_age.skip(1);
    ScanResultView {
        id: "dup_"@ + decimal(k),
        name: name_or(original.path, "?"@) + " ("@ + decimal(duplicates.len()) + " duplicates)"@,
        path: original.path,
        size: clamp_u64(sizes_sum(duplicates)),
        file_count: duplicates.len() as u64,
        dir_count: 0,
        last_accessed: original.last_accessed,
        last_modified: original.last_modified,
        safety_level: SafetyLevel::Caution,
        category: ScannerCategory::System,
        metadata: Map::empty().insert("scanner_id"@, "duplicates"@).insert(
            "group_id"@,
            decimal(k),
        ).insert("duplicate_paths"@, joined_by(paths_of(duplicates), "|"@)).insert(
            "original_path"@,
            original.path,
        ),
    }
}

/// The findings for the groups of copies among the first `k` of `files`,
/// one for each group, in the order of the groups' first files.
pub open spec fn findings_upto(files: Seq<HashedFileView>, k: nat) -> Seq<ScanResultView>
    decreases k,
{
    if k == 0 {
        Seq::empty()
    } else {
        let before = findings_upto(files, (k - 1) as nat);
        if leads(files, k - 1) {
            before.push(group_finding(copies_of(files, files[k - 1]), before.len()))
        } else {
            before
        }
    }
}

/// What a scan of `files` hands out: one finding for each group of copies,
/// those that free most first, and no more than the scanners' limit.
pub open spec fn duplicates_found(files: Seq<HashedFileView>) -> Seq<ScanResultView> {
    largest(findings_upto(files, files.len()), MAX_FINDINGS)
}

/// The smallest file that is compared under the settings `config`.
pub open spec fn size_floor(config: ScanConfigView) -> u64 {
    if config.min_size > MIN_SIZE {
        config.min_size
    } else {
        MIN_SIZE
    }
}

/// Finds groups of files with the same content.
pub struct DuplicatesScanner {
    search_paths: Vec<String>,
}

/// The directories that are searched, relative to the home directory.
pub open spec fn duplicate_locations() -> Seq<Seq<char>> {
    seq!["Documents"@, "Downloads"@, "Desktop"@, "Pictures"@, "Movies"@, "Music"@]
}

impl DuplicatesScanner {
    /// The directories under which the scanner looks.
    pub closed spec fn roots(&self) -> Seq<Seq<char>> {
        texts(self.search_paths@)
    }

    /// The scanner for the home directory that the environment names.
    pub fn new() -> (r: Self)
        ensures
            exists|home: Seq<char>| r.roots() == under_home(home, duplicate_locations()),
    {
        let home = super::home_or_root();
        let r = Self::with_home(home.as_str());
        assert(r.roots() == under_home(home@, duplicate_locations()));
        r
    }

    /// The scanner for the home directory `home`.
    pub fn with_home(home: &str) -> (r: Self)
        ensures
            r.roots() == under_home(home@, duplicate_locations()),
    {
        let mut rels: Vec<&'static str> = Vec::new();
        rels.push("Documents");
        rels.push("Downloads");
        rels.push("Desktop");
        rels.push("Pictures");
        rels.push("Movies");
        rels.push("Music");
        assert(slices(rels@) =~= duplicate_locations());
        DuplicatesScanner { search_paths: join_all(home, &rels) }
    }

    /// The directories under which the scanner looks.
    pub fn locations(&self) -> (r: &Vec<String>)
        ensures
            texts(r@) == self.roots(),
    {
        &self.search_paths
    }

    pub fn id(&self) -> (r: &'static str)
        ensures
            r@ == "duplicates"@,
    {
        "duplicates"
    }

    pub fn name(&self) -> (r: &'static str)
        ensures
            r@ == "Duplicates"@,
    {
        "Duplicates"
    }

    pub fn category(&self) -> (r: ScannerCategory)
        ensures
            r == ScannerCategory::System,
    {
        ScannerCategory::System
    }

    /// Seconds that a scan is expected to take.
    pub fn estimated_secs(&self) -> (r: u64)
        ensures
            r == 30,
    {
        30
    }

    /// Whether there is anything to scan: one of the directories exists.
    pub fn is_available(&self, exists: &Vec<bool>) -> (r: bool)
        ensures
            r == exists@.contains(true),
    {
        super::any_exists(exists)
    }

    /// Whether the file `path` of `size` bytes is compared at all: it is not
    /// excluded, not hidden, and not smaller than the smallest size.
    pub fn is_candidate(&self, config: &ScanConfig, path: &str, size: u64) -> (r: bool)
        ensures
            r == (!is_under_any(path@, config@.excluded_paths) && !has_dot_name(path@) && size
                >= size_floor(config@)),
    {
        if under_any(path, &config.excluded_paths) {
            return false;
        }
        if is_dot_name(path) {
            return false;
        }
        let floor = if config.min_size > MIN_SIZE {
            config.min_size
        } else {
            MIN_SIZE
        };
        size >= floor
    }

    /// Whether the content of the file at position `i` has to be read:
    /// another candidate has the same size.
    pub fn shares_size(sizes: &Vec<u64>, i: usize) -> (r: bool)
        requires
            i < sizes@.len(),
        ensures
            r == exists|j: int| 0 <= j < sizes@.len() && j != i && sizes@[j] == sizes@[i as int],
    {
        let mut j: usize = 0;
        while j < sizes.len()
            invariant
                j <= sizes@.len(),
                i < sizes@.len(),
                forall|k: int| 0 <= k < j && k != i ==> sizes@[k] != sizes@[i as int],
            decreases sizes.len() - j,
        {
            if j != i && sizes[j] == sizes[i] {
                return true;
            }
            j += 1;
        }
        false
    }

    fn same(a: &HashedFile, b: &HashedFile) -> (r: bool)
        ensures
            r == a@.same_content(b@),
    {
        a.size == b.size && str_eq(a.hash.as_str(), b.hash.as_str())
    }

    fn copies(files: &Vec<HashedFile>, i: usize) -> (r: Vec<HashedFile>)
        requires
            i < files@.len(),
        ensures
            views(r@) == copies_of(views(files@), files@[i as int]@),
    {
        let ghost all = views(files@);
        let ghost like = |g: HashedFileView| g.same_content(files@[i as int]@);
        let mut r: Vec<HashedFile> = Vec::new();
        let mut j: usize = 0;
        proof {
            reveal(Seq::filter);
            assert(all.take(0).filter(like) =~= views(r@));
        }
        while j < files.len()
            invariant
                j <= files@.len(),
                i < files@.len(),
                all == views(files@),
                like == |g: HashedFileView| g.same_content(files@[i as int]@),
                views(r@) == all.take(j as int).filter(like),
            decreases files.len() - j,
        {
            proof {
                reveal(Seq::filter);
                assert(all.take(j + 1).drop_last() == all.take(j as int));
                assert(all.take(j + 1).last() == files@[j as int]@);
            }
            let ghost before = r@;
            if Self::same(&files[j], &files[i]) {
                let copy = files[j].clone();
                r.push(copy);
                assert(views(r@) =~= views(before).push(copy@));
            }
            j += 1;
        }
        assert(all.take(files@.len() as int) == all);
        r
    }

    fn is_first(files: &Vec<HashedFile>, i: usize) -> (r: bool)
        requires
            i < files@.len(),
        ensures
            r == (first_match(
                views(files@),
                |g: HashedFileView| g.same_content(files@[i as int]@),
            ) == i),
    {
        let ghost all = views(files@);
        let ghost like = |g: HashedFileView| g.same_content(files@[i as int]@);
        let mut j: usize = 0;
        while j < i
            invariant
                j <= i < files@.len(),
                all == views(files@),
                like == |g: HashedFileView| g.same_content(files@[i as int]@),
                forall|k: int| 0 <= k < j ==> !like(#[trigger] all[k]),
            decreases i - j,
        {
            if Self::same(&files[j], &files[i]) {
                proof {
                    assert(like(all[j as int]));
                    lemma_first_match_is(all, like, j as int);
                }
                return false;
            }
            j += 1;
        }
        proof {
            assert(like(all[i as int]));
            lemma_first_match_is(all, like, i as int);
        }
        true
    }

    fn finding(group: Vec<HashedFile>, k: usize) -> (r: ScanResult)
        requires
            group@.len() >= 2,
        ensures
            r@ == group_finding(views(group@), k as nat),
    {
        let mut by_age = group;
        sort_stable::<HashedFile, OldestFirst>(&mut by_age);
        let ghost ordered = views(by_age@);
        let ghost duplicates = ordered.skip(1);
        assert(views(by_age@).len() == by_age@.len());
        let mut total: u64 = 0;
        let mut paths: Vec<String> = Vec::new();
        let mut j: usize = 1;
        assert(duplicates.take(0) =~= Seq::<HashedFileView>::empty());
        while j < by_age.len()
            invariant
                1 <= j <= by_age@.len(),
                ordered == views(by_age@),
                duplicates == ordered.skip(1),
                total == clamp_u64(sizes_sum(duplicates.take(j - 1))),
                paths@.map_values(|p: String| p@) == paths_of(duplicates.take(j - 1)),
            decreases by_age.len() - j,
        {
            proof {
                assert(duplicates.take(j as int).drop_last() == duplicates.take(j - 1));
                assert(duplicates.take(j as int).last() == by_age@[j as int]@);
            }
            let ghost before = paths@;
            total = add_clamped(total, by_age[j].size);
            paths.push(by_age[j].path.clone());
            assert(paths@.map_values(|p: String| p@) =~= before.map_values(|p: String| p@).push(
                by_age@[j as int].path@,
            ));
            assert(paths_of(duplicates.take(j as int)) =~= paths_of(duplicates.take(j - 1)).push(
                by_age@[j as int].path@,
            ));
            j += 1;
        }
        assert(duplicates.take(duplicates.len() as int) == duplicates);
        let count = by_age.len() - 1;
        let original = &by_age[0];
        assert(original@ == ordered[0]);
        let number = decimal_string(k as u64);
        let id = crate::text::concat("dup_", number.as_str());
        let name = concat4(
            file_name_or(original.path.as_str(), "?").as_str(),
            " (",
            decimal_string(count as u64).as_str(),
            " duplicates)",
        );
        ScanResult::new(id, name, original.path.clone()).with_size(total).with_file_count(
            count as u64,
        ).with_category(ScannerCategory::System).with_safety(
            SafetyLevel::Caution,
        ).with_last_accessed(original.last_accessed).with_last_modified(
            original.last_modified,
        ).with_meta("scanner_id", String::from_str("duplicates")).with_meta(
            "group_id",
            number,
        ).with_meta("duplicate_paths", join_with(&paths, "|")).with_meta(
            "original_path",
            original.path.clone(),
        )
    }

    /// The findings for the groups of copies among `files`.
    pub fn scan(&self, files: &Vec<HashedFile>) -> (r: Vec<ScanResult>)
        ensures
            views(r@) == duplicates_found(views(files@)),
    {
        let ghost all = views(files@);
        let mut items: Vec<ScanResult> = Vec::new();
        let mut i: usize = 0;
        assert(views(items@) =~= findings_upto(all, 0));
        while i < files.len()
            invariant
                i <= files@.len(),
                all == views(files@),
                views(items@) == findings_upto(all, i as nat),
            decreases files.len() - i,
        {
            let ghost before = items@;
            if Self::is_first(files, i) {
                let group = Self::copies(files, i);
                assert(views(group@).len() == group@.len());
                if group.len() >= 2 {
                    let item = Self::finding(group, items.len());
                    items.push(item);
                    assert(views(items@) =~= views(before).push(item@));
                }
            }
            assert(all[i as int] == files@[i as int]@);
            i += 1;
        }
        keep_largest(items, MAX_FINDINGS)
    }
}

impl Default for DuplicatesScanner {
    fn default() -> Self {
        Self::new()
    }
}

/// The findings where two files alone share their content: none before
/// the first of the two was looked at, one group after it.
proof fn lemma_findings_of_one_pair(files: Seq<HashedFileView>, i: int, j: int, k: nat)
    requires
        0 <= i < j < files.len(),
        k <= files.len(),
        files[i].same_content(files[j]),
        forall|a: int, b: int|
            #![trigger files[b].same_content(files[a])]
            0 <= a < files.len() && a != i && a != j && 0 <= b < files.len() && b != a
                ==> !files[b].same_content(files[a]),
    ensures
        findings_upto(files, k) == if k <= i {
            Seq::<ScanResultView>::empty()
        } else {
            seq![group_finding(seq![files[i], files[j]], 0)]
        },
    decreases k,
{
    if k > 0 {
        lemma_findings_of_one_pair(files, i, j, (k - 1) as nat);
        let at = k - 1;
        let like = |g: HashedFileView| g.same_content(files[at]);
        crate::search::lemma_first_match(files, like);
        if at == i {
            assert forall|m: int| 0 <= m < files.len() && m != i && m != j implies !like(
                #[trigger] files[m],
            ) by {
                assert(!files[i].same_content(files[m]));
            }
            crate::sorting::lemma_filter_pair(files, like, i, j);
            lemma_first_match_is(files, like, i);
        } else if at == j {
            assert(like(files[i]));
        } else {
            assert forall|m: int| 0 <= m < files.len() && m != at implies !like(
                #[trigger] files[m],
            ) by {
                assert(!files[m].same_content(files[at]));
            }
            crate::sorting::lemma_filter_one(files, like, at);
        }
    }
}

/// Two files with the same content, of which one is the older, among files
/// that are each alone with theirs, in whatever order the files stand: the
/// scan hands out one finding. Its path is the older file, the original;
/// the other file is its one duplicate, and the size of the finding is the
/// size of that duplicate alone. A file with other content has no finding
/// and is no duplicate, whether it has the same length or not.
pub proof fn lemma_one_pair_of_copies(
    files: Seq<HashedFileView>,
    original: HashedFileView,
    copy: HashedFileView,
    i: int,
    j: int,
)
    requires
        0 <= i < j < files.len(),
        (files[i] == original && files[j] == copy) || (files[i] == copy && files[j] == original),
        original.same_content(copy),
        original.written().is_before(copy.written()),
        forall|a: int, b: int|
            #![trigger files[b].same_content(files[a])]
            0 <= a < files.len() && a != i && a != j && 0 <= b < files.len() && b != a
                ==> !files[b].same_content(files[a]),
    ensures
        duplicates_found(files).len() == 1,
        duplicates_found(files)[0].path == original.path,
        duplicates_found(files)[0].metadata.dom().contains("original_path"@),
        duplicates_found(files)[0].metadata["original_path"@] == original.path,
        duplicates_found(files)[0].metadata.dom().contains("duplicate_paths"@),
        duplicates_found(files)[0].metadata["duplicate_paths"@] == copy.path,
        duplicates_found(files)[0].file_count == 1,
        duplicates_found(files)[0].size == copy.size,
        duplicates_found(files)[0].last_modified == original.last_modified,
{
    lemma_findings_of_one_pair(files, i, j, files.len());
    let group = seq![files[i], files[j]];
    let found = group_finding(group, 0);
    crate::sorting::lemma_stable_sort_small::<ScanResultView, super::LargestFirst>(found, found);
    assert(duplicates_found(files) == seq![found]);
    crate::sorting::lemma_stable_sort_small::<HashedFileView, OldestFirst>(files[i], files[j]);
    let by_age = stable_sort::<HashedFileView, OldestFirst>(group);
    assert(by_age == seq![original, copy]);
    let duplicates = by_age.skip(1);
    assert(duplicates =~= seq![copy]);
    assert(duplicates.drop_last() =~= Seq::<HashedFileView>::empty());
    assert(sizes_sum(duplicates.drop_last()) == 0);
    assert(sizes_sum(duplicates) == copy.size);
    assert(paths_of(duplicates) =~= seq![copy.path]);
    assert(joined_by(paths_of(duplicates), "|"@) == copy.path);
    reveal_strlit("duplicate_paths");
    reveal_strlit("original_path");
    assert("duplicate_paths"@.len() == 15 && "original_path"@.len() == 13);
}

} // verus!
