//! Questions and answers of the server, and the rules that make an answer
//! from a report or from the sizes found under a directory.

use crate::metadata::spotlight::FileMetadata;
use crate::output::documents::{meta_at, metas_of};
use crate::plugin::registry::{add_clamped, add_clamped_usize, clamp_u64, clamp_usize, CategoryView};
use crate::plugin::{ScanReport, ScanResultView};
use crate::search::{first_match, lemma_first_match_is};
use crate::sorting::{sort_stable, stable_sort, views, Order, Precedence};
use crate::text::{chars_contain, has_infix, join_with, joined_by, lowercase, str_eq, to_chars,
    to_lowercase};
use crate::time::{rfc3339_of, to_rfc3339};
use vstd::prelude::*;

verus! {

/// Asks for a scan of the system, of all categories or of those named.
#[derive(Debug)]
pub struct ScanInput {
    pub categories: Option<Vec<String>>,
}

/// Asks for the findings of one category.
#[derive(Debug)]
pub struct ScanCategoryInput {
    pub category: String,
    pub collect_metadata: Option<bool>,
}

/// Asks for the disk usage under a path.
#[derive(Debug)]
pub struct AnalyzeDiskInput {
    pub path: String,
    pub depth: usize,
}

/// How deep the usage under a path is looked at, unless the question says.
pub fn default_depth() -> (r: usize)
    ensures
        r == 2,
{
    2
}

/// Asks what a clean-up of the named categories would remove.
#[derive(Debug)]
pub struct PreviewCleanInput {
    pub categories: Vec<String>,
}

/// One category in the answer to a scan.
#[derive(Debug)]
pub struct CategoryOutput {
    pub id: String,
    pub name: String,
    pub size_bytes: u64,
    pub item_count: usize,
}

/// A category of an answer, with its texts as character sequences.
pub struct CategoryOutputView {
    pub id: Seq<char>,
    pub name: Seq<char>,
    pub size_bytes: u64,
    pub item_count: usize,
}

impl View for CategoryOutput {
    type V = CategoryOutputView;

    open spec fn view(&self) -> CategoryOutputView {
        CategoryOutputView {
            id: self.id@,
            name: self.name@,
            size_bytes: self.size_bytes,
            item_count: self.item_count,
        }
    }
}

/// The answer to a scan.
#[derive(Debug)]
pub struct ScanOutput {
    pub categories: Vec<CategoryOutput>,
    pub total_size_bytes: u64,
    pub total_items: usize,
    pub cli_command: String,
}

/// An installed application in an answer.
#[derive(Debug)]
pub struct AppOutput {
    pub name: String,
    pub path: String,
    pub size_bytes: u64,
    pub bundle_id: Option<String>,
    pub version: Option<String>,
}

/// One path that a clean-up would remove.
#[derive(Debug)]
pub struct PreviewItemOutput {
    pub path: String,
    pub size_bytes: u64,
    pub last_used: Option<String>,
}

/// The answer to the question what a clean-up would remove.
#[derive(Debug)]
pub struct PreviewOutput {
    pub items: Vec<PreviewItemOutput>,
    pub total_size_bytes: u64,
    pub cli_command: String,
    pub warnings: Vec<String>,
}

/// One record of the history in an answer.
#[derive(Debug)]
pub struct HistoryEntryOutput {
    pub timestamp: String,
    pub action: String,
    pub path: String,
    pub size: Option<u64>,
}

/// The answer to the question for the history.
#[derive(Debug)]
pub struct HistoryOutput {
    pub entries: Vec<HistoryEntryOutput>,
}

/// The bytes found under one child of a directory.
#[derive(Debug)]
pub struct DiskChild {
    pub name: String,
    pub size_bytes: u64,
}

/// A child, with its name as a character sequence.
pub struct DiskChildView {
    pub name: Seq<char>,
    pub size_bytes: u64,
}

impl View for DiskChild {
    type V = DiskChildView;

    open spec fn view(&self) -> DiskChildView {
        DiskChildView { name: self.name@, size_bytes: self.size_bytes }
    }
}

/// The scanner `scanner_id` is asked for by the filter `wanted`: one of its
/// entries, in lower case, is part of the identity.
pub open spec fn is_wanted(wanted: Seq<Seq<char>>, scanner_id: Seq<char>) -> bool {
    exists|i: int| 0 <= i < wanted.len() && has_infix(scanner_id, lowercase(#[trigger] wanted[i]))
}

/// Whether the scanner `scanner_id` is asked for by the filter `wanted`.
pub fn wants(wanted: &Vec<String>, scanner_id: &str) -> (r: bool)
    ensures
        r == is_wanted(crate::plugin::traits::texts(wanted@), scanner_id@),
{
    let ghost all = crate::plugin::traits::texts(wanted@);
    let id = to_chars(scanner_id);
    let mut i: usize = 0;
    while i < wanted.len()
        invariant
            i <= wanted@.len(),
            id@ == scanner_id@,
            all == crate::plugin::traits::texts(wanted@),
            forall|k: int| 0 <= k < i ==> !has_infix(scanner_id@, lowercase(#[trigger] all[k])),
        decreases wanted.len() - i,
    {
        assert(all[i as int] == wanted@[i as int]@);
        if chars_contain(&id, &to_chars(to_lowercase(wanted[i].as_str()).as_str())) {
            return true;
        }
        i += 1;
    }
    false
}

/// The category of an answer that sums up the group `group`.
pub open spec fn summed(group: CategoryView) -> CategoryOutputView {
    CategoryOutputView {
        id: group.scanner_id,
        name: group.name,
        size_bytes: clamp_u64(group.size_bytes()),
        item_count: group.item_count() as usize,
    }
}

/// The categories of the answer to a scan: every group of the report where
/// the filter is empty, else those that it asks for.
pub open spec fn answered(groups: Seq<CategoryView>, wanted: Seq<Seq<char>>) -> Seq<
    CategoryOutputView,
> {
    crate::search::collect(
        groups,
        |g: CategoryView|
            if wanted.len() == 0 || is_wanted(wanted, g.scanner_id) {
                Some(summed(g))
            } else {
                None
            },
    )
}

/// Sum of the sizes of `categories`.
pub open spec fn answered_size(categories: Seq<CategoryOutputView>) -> nat
    decreases categories.len(),
{
    if categories.len() == 0 {
        0
    } else {
        answered_size(categories.drop_last()) + categories.last().size_bytes as nat
    }
}

/// Sum of the item counts of `categories`.
pub open spec fn answered_items(categories: Seq<CategoryOutputView>) -> nat
    decreases categories.len(),
{
    if categories.len() == 0 {
        0
    } else {
        answered_items(categories.drop_last()) + categories.last().item_count as nat
    }
}

/// The answer to a scan whose report is `report`, for the filter `wanted`.
pub fn scan_output(report: &ScanReport, wanted: &Vec<String>) -> (r: ScanOutput)
    ensures
        views(r.categories@) == answered(report@.categories, crate::plugin::traits::texts(wanted@)),
        r.total_size_bytes == clamp_u64(answered_size(views(r.categories@))),
        r.total_items == clamp_usize(answered_items(views(r.categories@))),
        r.cli_command@ == "cleanmac scan --format json"@,
{
    let groups = report.categories();
    let ghost all = views(groups@);
    let ghost filter = crate::plugin::traits::texts(wanted@);
    let ghost pick = |g: CategoryView|
        if filter.len() == 0 || is_wanted(filter, g.scanner_id) {
            Some(summed(g))
        } else {
            None
        };
    let mut categories: Vec<CategoryOutput> = Vec::new();
    let mut size: u64 = 0;
    let mut count: usize = 0;
    let mut i: usize = 0;
    assert(views(categories@) =~= crate::search::collect(all.take(0), pick));
    assert(filter.len() == wanted@.len());
    while i < groups.len()
        invariant
            i <= groups@.len(),
            all == views(groups@),
            filter == crate::plugin::traits::texts(wanted@),
            filter.len() == wanted@.len(),
            pick == |g: CategoryView|
                if filter.len() == 0 || is_wanted(filter, g.scanner_id) {
                    Some(summed(g))
                } else {
                    None
                },
            views(categories@) == crate::search::collect(all.take(i as int), pick),
            size == clamp_u64(answered_size(views(categories@))),
            count == clamp_usize(answered_items(views(categories@))),
        decreases groups.len() - i,
    {
        proof {
            assert(all.take(i + 1).drop_last() == all.take(i as int));
            assert(all.take(i + 1).last() == groups@[i as int]@);
        }
        let group = &groups[i];
        let ghost before = categories@;
        if wanted.len() == 0 || wants(wanted, group.scanner_id.as_str()) {
            let answer = CategoryOutput {
                id: group.scanner_id.clone(),
                name: group.name.clone(),
                size_bytes: group.total_size(),
                item_count: group.items.len(),
            };
            assert(group@.items.len() == group.items@.len());
            size = add_clamped(size, answer.size_bytes);
            count = add_clamped_usize(count, answer.item_count);
            categories.push(answer);
            assert(views(categories@) =~= views(before).push(answer@));
            assert(views(categories@).drop_last() == views(before));
        }
        i += 1;
    }
    assert(all.take(groups@.len() as int) == all);
    ScanOutput {
        categories,
        total_size_bytes: size,
        total_items: count,
        cli_command: String::from_str("cleanmac scan --format json"),
    }
}

/// Children with more bytes come first.
pub struct BiggestChild;

impl Precedence<DiskChildView> for BiggestChild {
    open spec fn before(a: DiskChildView, b: DiskChildView) -> bool {
        a.size_bytes > b.size_bytes
    }
}

impl Order<DiskChild> for BiggestChild {
    fn precedes(a: &DiskChild, b: &DiskChild) -> (r: bool) {
        a.size_bytes > b.size_bytes
    }
}

/// Number of children that an answer lists at most.
pub const MAX_CHILDREN: usize = 20;

/// The children with `len` more bytes under the child named `name`; a name
/// not seen before comes last.
pub open spec fn counted(children: Seq<DiskChildView>, name: Seq<char>, len: u64) -> Seq<
    DiskChildView,
> {
    let p = first_match(children, |c: DiskChildView| c.name == name);
    if p < children.len() {
        children.update(
            p,
            DiskChildView {
                size_bytes: clamp_u64((children[p].size_bytes + len) as nat),
                ..children[p]
            },
        )
    } else {
        children.push(DiskChildView { name, size_bytes: len })
    }
}

/// Sum of the bytes of `children`.
pub open spec fn children_size(children: Seq<DiskChildView>) -> nat
    decreases children.len(),
{
    if children.len() == 0 {
        0
    } else {
        children_size(children.drop_last()) + children.last().size_bytes as nat
    }
}

/// The bytes found under a directory, child by child.
#[derive(Debug)]
pub struct DiskUsage {
    children: Vec<DiskChild>,
}

impl DiskUsage {
    /// The children found so far, in the order in which they were first
    /// seen.
    pub closed spec fn found(&self) -> Seq<DiskChildView> {
        views(self.children@)
    }

    /// Nothing found yet.
    pub fn new() -> (r: Self)
        ensures
            r.found() == Seq::<DiskChildView>::empty(),
    {
        let r = DiskUsage { children: Vec::new() };
        assert(r.found() =~= Seq::<DiskChildView>::empty());
        r
    }

    /// Counts a file of `len` bytes under the child named `name`.
    pub fn add(&mut self, name: &str, len: u64)
        ensures
            final(self).found() == counted(old(self).found(), name@, len),
    {
        let ghost before = views(self.children@);
        let mut i: usize = 0;
        while i < self.children.len() && !str_eq(self.children[i].name.as_str(), name)
            invariant
                i <= self.children@.len(),
                before == views(self.children@),
                forall|k: int| 0 <= k < i ==> (#[trigger] before[k]).name != name@,
            decreases self.children.len() - i,
        {
            i += 1;
        }
        proof {
            lemma_first_match_is(before, |c: DiskChildView| c.name == name@, i as int);
        }
        if i < self.children.len() {
            let prior = self.children.remove(i);
            let child = DiskChild {
                name: prior.name,
                size_bytes: add_clamped(prior.size_bytes, len),
            };
            self.children.insert(i, child);
            assert(views(self.children@) =~= counted(before, name@, len));
        } else {
            self.children.push(DiskChild { name: String::from_str(name), size_bytes: len });
            assert(views(self.children@) =~= counted(before, name@, len));
        }
    }

    /// The bytes of all children together, and the children with most
    /// bytes, biggest first, at most twenty.
    pub fn finish(self) -> (r: (u64, Vec<DiskChild>))
        ensures
            r.0 == clamp_u64(children_size(self.found())),
            views(r.1@) == crate::scanner::at_most(
                stable_sort::<DiskChildView, BiggestChild>(self.found()),
                MAX_CHILDREN,
            ),
    {
        let ghost all = views(self.children@);
        let mut total: u64 = 0;
        let mut i: usize = 0;
        while i < self.children.len()
            invariant
                i <= self.children@.len(),
                all == views(self.children@),
                total == clamp_u64(children_size(all.take(i as int))),
            decreases self.children.len() - i,
        {
            assert(all.take(i + 1).drop_last() == all.take(i as int));
            assert(all.take(i + 1).last() == self.children@[i as int]@);
            total = add_clamped(total, self.children[i].size_bytes);
            i += 1;
        }
        assert(all.take(self.children@.len() as int) == all);
        let mut children = self.children;
        sort_stable::<DiskChild, BiggestChild>(&mut children);
        let ghost sorted = views(children@);
        children.truncate(MAX_CHILDREN);
        assert(views(children@) =~= crate::scanner::at_most(sorted, MAX_CHILDREN));
        (total, children)
    }
}

/// The command that carries out a clean-up of `categories`.
pub fn apply_command(categories: &Vec<String>) -> (r: String)
    ensures
        r@ == "cleanmac apply --category "@ + joined_by(
            categories@.map_values(|c: String| c@),
            ","@,
        ) + " --yes"@,
{
    crate::text::concat3("cleanmac apply --category ", join_with(categories, ",").as_str(), " --yes")
}

/// Number of paths that a preview lists at most.
pub const MAX_PREVIEW_ITEMS: usize = 100;

/// The warning that goes with the deletion of browser data.
pub open spec fn browser_warning() -> Seq<char> {
    "Browser cache deletion may require re-login to websites"@
}

/// Whether a clean-up of the scanner `scanner_id` is warned of: it removes
/// browser data.
pub fn warns(scanner_id: &str) -> (r: bool)
    ensures
        r == has_infix(scanner_id@, "browser"@),
{
    crate::text::contains(scanner_id, "browser")
}

/// A path of a preview, with its texts as character sequences.
pub struct PreviewItemView {
    pub path: Seq<char>,
    pub size_bytes: u64,
    pub last_used: Option<Seq<char>>,
}

impl View for PreviewItemOutput {
    type V = PreviewItemView;

    open spec fn view(&self) -> PreviewItemView {
        PreviewItemView {
            path: self.path@,
            size_bytes: self.size_bytes,
            last_used: match self.last_used {
                Some(t) => Some(t@),
                None => None,
            },
        }
    }
}

/// When a file was last used, written in RFC 3339, where its usage
/// metadata tell and the time can be written.
pub open spec fn last_use(meta: Option<FileMetadata>) -> Option<Seq<char>> {
    match meta {
        Some(m) => match m.last_used {
            Some(t) => rfc3339_of(t),
            None => None,
        },
        None => None,
    }
}

/// What a preview says of the findings `items`, with their usage metadata.
pub open spec fn preview_items(
    items: Seq<ScanResultView>,
    metadata: Seq<Option<FileMetadata>>,
) -> Seq<PreviewItemView> {
    Seq::new(
        items.len(),
        |i: int|
            PreviewItemView {
                path: items[i].path,
                size_bytes: items[i].size,
                last_used: last_use(meta_at(metadata, i)),
            },
    )
}

/// What a preview says of all findings of the groups that the filter asks
/// for, group after group.
pub open spec fn previewed(
    groups: Seq<CategoryView>,
    wanted: Seq<Seq<char>>,
    metadata: Seq<Vec<Option<FileMetadata>>>,
) -> Seq<PreviewItemView>
    decreases groups.len(),
{
    if groups.len() == 0 {
        Seq::empty()
    } else {
        let before = previewed(groups.drop_last(), wanted, metadata);
        if is_wanted(wanted, groups.last().scanner_id) {
            before + preview_items(groups.last().items, metas_of(metadata, groups.len() - 1))
        } else {
            before
        }
    }
}

/// The bytes of all findings of the groups that the filter asks for.
pub open spec fn previewed_size(groups: Seq<CategoryView>, wanted: Seq<Seq<char>>) -> nat
    decreases groups.len(),
{
    if groups.len() == 0 {
        0
    } else {
        previewed_size(groups.drop_last(), wanted) + if is_wanted(
            wanted,
            groups.last().scanner_id,
        ) {
            groups.last().size_bytes()
        } else {
            0
        }
    }
}

/// A clean-up of the groups that the filter asks for removes browser data:
/// one of them is a browser scanner's and holds a finding.
pub open spec fn removes_browser_data(groups: Seq<CategoryView>, wanted: Seq<Seq<char>>) -> bool {
    exists|g: int|
        0 <= g < groups.len() && is_wanted(wanted, (#[trigger] groups[g]).scanner_id)
            && groups[g].items.len() > 0 && has_infix(groups[g].scanner_id, "browser"@)
}

/// The answer to the question what a clean-up of the categories
/// `categories` would remove, where `metadata[g][i]` are the usage metadata
/// of the `i`-th finding of the report's `g`-th group. It lists the first
/// hundred paths, counts the bytes of all, names the command that carries
/// the clean-up out, and warns where browser data go.
pub fn preview_output(
    report: &ScanReport,
    categories: &Vec<String>,
    metadata: &Vec<Vec<Option<FileMetadata>>>,
) -> (r: PreviewOutput)
    ensures
        views(r.items@) == crate::scanner::at_most(
            previewed(report@.categories, crate::plugin::traits::texts(categories@), metadata@),
            MAX_PREVIEW_ITEMS,
        ),
        r.total_size_bytes == clamp_u64(
            previewed_size(report@.categories, crate::plugin::traits::texts(categories@)),
        ),
        r.cli_command@ == "cleanmac apply --category "@ + joined_by(
            categories@.map_values(|c: String| c@),
            ","@,
        ) + " --yes"@,
        crate::plugin::traits::texts(r.warnings@) == if removes_browser_data(
            report@.categories,
            crate::plugin::traits::texts(categories@),
        ) {
            seq![browser_warning()]
        } else {
            Seq::<Seq<char>>::empty()
        },
{
    let groups = report.categories();
    let ghost all = report@.categories;
    let ghost wanted = crate::plugin::traits::texts(categories@);
    let mut items: Vec<PreviewItemOutput> = Vec::new();
    let mut total: u64 = 0;
    let mut warn = false;
    let mut g: usize = 0;
    assert(views(items@) =~= previewed(all.take(0), wanted, metadata@));
    while g < groups.len()
        invariant
            g <= groups@.len(),
            all == views(groups@),
            wanted == crate::plugin::traits::texts(categories@),
            views(items@) == previewed(all.take(g as int), wanted, metadata@),
            total == clamp_u64(previewed_size(all.take(g as int), wanted)),
            warn == removes_browser_data(all.take(g as int), wanted),
        decreases groups.len() - g,
    {
        let group = &groups[g];
        let ghost head = all.take(g as int);
        let ghost next = all.take(g + 1);
        proof {
            assert(next.drop_last() == head);
            assert(next.last() == group@);
            assert forall|k: int| 0 <= k < head.len() implies #[trigger] next[k] == head[k] by {}
        }
        if wants(categories, group.scanner_id.as_str()) {
            let known: Option<&Vec<Option<FileMetadata>>> = if g < metadata.len() {
                Some(&metadata[g])
            } else {
                None
            };
            let ghost metas = metas_of(metadata@, g as int);
            let ghost start = views(items@);
            let mut i: usize = 0;
            assert(start + preview_items(group@.items, metas).take(0) =~= start);
            while i < group.items.len()
                invariant
                    i <= group.items@.len(),
                    group@.items == views(group.items@),
                    metas == metas_of(metadata@, g as int),
                    g < metadata@.len() ==> known == Some(&metadata@[g as int]),
                    g >= metadata@.len() ==> known is None,
                    views(items@) == start + preview_items(group@.items, metas).take(i as int),
                decreases group.items.len() - i,
            {
                let item = &group.items[i];
                let meta: Option<FileMetadata> = match known {
                    Some(m) => if i < m.len() {
                        m[i]
                    } else {
                        None
                    },
                    None => None,
                };
                assert(meta == meta_at(metas, i as int));
                let last_used = match meta {
                    Some(m) => match m.last_used {
                        Some(t) => to_rfc3339(t),
                        None => None,
                    },
                    None => None,
                };
                let ghost before = items@;
                let listed = PreviewItemOutput {
                    path: item.path.clone(),
                    size_bytes: item.size,
                    last_used,
                };
                assert(listed@ == preview_items(group@.items, metas)[i as int]);
                items.push(listed);
                assert(views(items@) =~= views(before).push(listed@));
                assert(start + preview_items(group@.items, metas).take(i + 1) =~= (start
                    + preview_items(group@.items, metas).take(i as int)).push(listed@));
                i += 1;
            }
            assert(preview_items(group@.items, metas).take(group.items@.len() as int)
                =~= preview_items(group@.items, metas));
            total = add_clamped(total, group.total_size());
            if group.items.len() > 0 && warns(group.scanner_id.as_str()) {
                warn = true;
                assert(removes_browser_data(next, wanted)) by {
                    assert(next[g as int] == group@);
                }
            }
        }
        proof {
            if removes_browser_data(head, wanted) {
                let k = choose|k: int|
                    0 <= k < head.len() && is_wanted(wanted, (#[trigger] head[k]).scanner_id)
                        && head[k].items.len() > 0 && has_infix(head[k].scanner_id, "browser"@);
                assert(next[k] == head[k]);
                assert(removes_browser_data(next, wanted));
            }
            if removes_browser_data(next, wanted) && !warn {
                let k = choose|k: int|
                    0 <= k < next.len() && is_wanted(wanted, (#[trigger] next[k]).scanner_id)
                        && next[k].items.len() > 0 && has_infix(next[k].scanner_id, "browser"@);
                if k < head.len() {
                    assert(head[k] == next[k]);
                    assert(removes_browser_data(head, wanted));
                } else {
                    assert(next[k] == group@);
                }
            }
        }
        g += 1;
    }
    assert(all.take(groups@.len() as int) == all);
    let ghost listed = views(items@);
    items.truncate(MAX_PREVIEW_ITEMS);
    assert(views(items@) =~= crate::scanner::at_most(listed, MAX_PREVIEW_ITEMS));
    let mut warnings: Vec<String> = Vec::new();
    if warn {
        warnings.push(String::from_str("Browser cache deletion may require re-login to websites"));
        assert(crate::plugin::traits::texts(warnings@) =~= seq![browser_warning()]);
    } else {
        assert(crate::plugin::traits::texts(warnings@) =~= Seq::<Seq<char>>::empty());
    }
    PreviewOutput {
        items,
        total_size_bytes: total,
        cli_command: apply_command(categories),
        warnings,
    }
}

} // verus!
