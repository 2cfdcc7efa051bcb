//! Findings grouped by the scanner that produced them, and the report over
//! all groups with its running totals.

use super::traits::{
    texts, CleanConfig, CleanResult, ScanResult, ScanResultView, ScannerCategory,
};
use crate::cleaner::{cleaned, failures, matches_result, DefaultCleaner, StepOutcome};
use crate::search::{first_match, lemma_first_match_is};
use crate::sorting::views;
use crate::text::str_eq;
use crate::tui::service::scanner::ScannerKind;
use vstd::prelude::*;

verus! {

/// `n`, or the largest 64-bit number where `n` does not fit.
pub open spec fn clamp_u64(n: nat) -> u64 {
    if n > u64::MAX {
        u64::MAX
    } else {
        n as u64
    }
}

/// `n`, or the largest machine-size number where `n` does not fit.
pub open spec fn clamp_usize(n: nat) -> usize {
    if n > usize::MAX {
        usize::MAX
    } else {
        n as usize
    }
}

/// `a + b`, stopping at the largest 64-bit number.
pub fn add_clamped(a: u64, b: u64) -> (r: u64)
    ensures
        r == clamp_u64((a + b) as nat),
{
    if a > u64::MAX - b {
        u64::MAX
    } else {
        a + b
    }
}

/// `a + b`, stopping at the largest machine-size number.
pub fn add_clamped_usize(a: usize, b: usize) -> (r: usize)
    ensures
        r == clamp_usize((a + b) as nat),
{
    if a > usize::MAX - b {
        usize::MAX
    } else {
        a + b
    }
}

/// Sum of the sizes of `items`, in bytes.
pub open spec fn sum_sizes(items: Seq<ScanResultView>) -> nat
    decreases items.len(),
{
    if items.len() == 0 {
        0
    } else {
        sum_sizes(items.drop_last()) + items.last().size as nat
    }
}

/// Sum of the file counts of `items`.
pub open spec fn sum_file_counts(items: Seq<ScanResultView>) -> nat
    decreases items.len(),
{
    if items.len() == 0 {
        0
    } else {
        sum_file_counts(items.drop_last()) + items.last().file_count as nat
    }
}

/// The findings of one scanner.
#[derive(Debug)]
pub struct CategoryScanResult {
    pub scanner_id: String,
    pub name: String,
    pub category: ScannerCategory,
    pub icon: String,
    pub items: Vec<ScanResult>,
}

/// A group of findings, with its texts as character sequences.
pub struct CategoryView {
    pub scanner_id: Seq<char>,
    pub name: Seq<char>,
    pub category: ScannerCategory,
    pub icon: Seq<char>,
    pub items: Seq<ScanResultView>,
}

impl View for CategoryScanResult {
    type V = CategoryView;

    open spec fn view(&self) -> CategoryView {
        CategoryView {
            scanner_id: self.scanner_id@,
            name: self.name@,
            category: self.category,
            icon: self.icon@,
            items: views(self.items@),
        }
    }
}

impl CategoryView {
    /// Bytes that the findings of this group hold together.
    pub open spec fn size_bytes(self) -> nat {
        sum_sizes(self.items)
    }

    /// Number of findings in this group.
    pub open spec fn item_count(self) -> nat {
        self.items.len()
    }
}

impl CategoryScanResult {

    /// Bytes that the findings of this group hold together.
    pub fn total_size(&self) -> (r: u64)
        ensures
            r == clamp_u64(self@.size_bytes()),
    {
        let ghost all = views(self.items@);
        let mut total: u64 = 0;
        let mut i: usize = 0;
        while i < self.items.len()
            invariant
                i <= self.items@.len(),
                all == views(self.items@),
                total == clamp_u64(sum_sizes(all.take(i as int))),
            decreases self.items.len() - i,
        {
            assert(all.take(i + 1).drop_last() == all.take(i as int));
            assert(all.take(i + 1).last() == self.items@[i as int]@);
            total = add_clamped(total, self.items[i].size);
            i += 1;
        }
        assert(all.take(self.items@.len() as int) == all);
        total
    }

    /// Files that the findings of this group hold together.
    pub fn total_files(&self) -> (r: u64)
        ensures
            r == clamp_u64(sum_file_counts(self@.items)),
    {
        let ghost all = views(self.items@);
        let mut total: u64 = 0;
        let mut i: usize = 0;
        while i < self.items.len()
            invariant
                i <= self.items@.len(),
                all == views(self.items@),
                total == clamp_u64(sum_file_counts(all.take(i as int))),
            decreases self.items.len() - i,
        {
            assert(all.take(i + 1).drop_last() == all.take(i as int));
            assert(all.take(i + 1).last() == self.items@[i as int]@);
            total = add_clamped(total, self.items[i].file_count);
            i += 1;
        }
        assert(all.take(self.items@.len() as int) == all);
        total
    }
}

/// Bytes that all findings of `categories` hold together.
pub open spec fn report_size(categories: Seq<CategoryView>) -> nat
    decreases categories.len(),
{
    if categories.len() == 0 {
        0
    } else {
        report_size(categories.drop_last()) + categories.last().size_bytes()
    }
}

/// Number of findings in `categories`.
pub open spec fn report_items(categories: Seq<CategoryView>) -> nat
    decreases categories.len(),
{
    if categories.len() == 0 {
        0
    } else {
        report_items(categories.drop_last()) + categories.last().item_count()
    }
}

/// Position of the first group of scanner `id`, or the number of groups if
/// there is none.
pub open spec fn position_of(categories: Seq<CategoryView>, id: Seq<char>) -> int {
    first_match(categories, |c: CategoryView| c.scanner_id == id)
}

/// The totals of a sequence and of the same sequence with one more group.
pub proof fn lemma_totals_push(categories: Seq<CategoryView>, c: CategoryView)
    ensures
        report_size(categories.push(c)) == report_size(categories) + c.size_bytes(),
        report_items(categories.push(c)) == report_items(categories) + c.item_count(),
{
    assert(categories.push(c).drop_last() == categories);
}

/// Replacing one group changes the totals by the difference of the two.
pub proof fn lemma_totals_update(categories: Seq<CategoryView>, i: int, c: CategoryView)
    requires
        0 <= i < categories.len(),
    ensures
        report_size(categories.update(i, c)) + categories[i].size_bytes() == report_size(
            categories,
        ) + c.size_bytes(),
        report_items(categories.update(i, c)) + categories[i].item_count() == report_items(
            categories,
        ) + c.item_count(),
    decreases categories.len(),
{
    let updated = categories.update(i, c);
    if i == categories.len() - 1 {
        assert(updated.drop_last() == categories.drop_last());
    } else {
        lemma_totals_update(categories.drop_last(), i, c);
        assert(updated.drop_last() == categories.drop_last().update(i, c));
    }
}

/// The groups of `categories` whose scanner is none of `ids`, in their order.
pub open spec fn without_scanners(categories: Seq<CategoryView>, ids: Seq<Seq<char>>) -> Seq<
    CategoryView,
> {
    categories.filter(|c: CategoryView| !ids.contains(c.scanner_id))
}

/// The groups after scanner `id` reported `item`: the first group of that
/// scanner has the finding as its last; where there is no such group, a new
/// one with that identity, named after it, comes last.
pub open spec fn with_item(
    categories: Seq<CategoryView>,
    id: Seq<char>,
    item: ScanResultView,
) -> Seq<CategoryView> {
    let p = position_of(categories, id);
    if p < categories.len() {
        categories.update(p, CategoryView { items: categories[p].items.push(item), ..categories[p] })
    } else {
        categories.push(
            CategoryView {
                scanner_id: id,
                name: id,
                category: ScannerCategory::System,
                icon: Seq::empty(),
                items: seq![item],
            },
        )
    }
}

/// The groups after scanner `id` finished: its first group has the name and
/// category that the scanner reported. Without such a group nothing changes.
pub open spec fn with_scanner_done(
    categories: Seq<CategoryView>,
    id: Seq<char>,
    name: Seq<char>,
    category: ScannerCategory,
) -> Seq<CategoryView> {
    let p = position_of(categories, id);
    if p < categories.len() {
        categories.update(p, CategoryView { name, category, ..categories[p] })
    } else {
        categories
    }
}

/// Whether `id` is one of `ids`.
pub fn id_listed(ids: &Vec<String>, id: &str) -> (r: bool)
    ensures
        r == texts(ids@).contains(id@),
{
    let ghost all = texts(ids@);
    let mut i: usize = 0;
    while i < ids.len()
        invariant
            i <= ids@.len(),
            all == texts(ids@),
            forall|k: int| 0 <= k < i ==> all[k] != id@,
        decreases ids.len() - i,
    {
        if str_eq(ids[i].as_str(), id) {
            assert(all[i as int] == id@);
            return true;
        }
        i += 1;
    }
    false
}

/// The totals of `categories`: bytes and findings.
pub fn totals_of(categories: &Vec<CategoryScanResult>) -> (r: (u64, usize))
    ensures
        r.0 == clamp_u64(report_size(views(categories@))),
        r.1 == clamp_usize(report_items(views(categories@))),
{
    let ghost all = views(categories@);
    let mut size: u64 = 0;
    let mut count: usize = 0;
    let mut i: usize = 0;
    while i < categories.len()
        invariant
            i <= categories@.len(),
            all == views(categories@),
            size == clamp_u64(report_size(all.take(i as int))),
            count == clamp_usize(report_items(all.take(i as int))),
        decreases categories.len() - i,
    {
        assert(all.take(i + 1).drop_last() == all.take(i as int));
        assert(all.take(i + 1).last() == categories@[i as int]@);
        size = add_clamped(size, categories[i].total_size());
        count = add_clamped_usize(count, categories[i].items.len());
        i += 1;
    }
    assert(all.take(categories@.len() as int) == all);
    (size, count)
}

fn find_group(categories: &Vec<CategoryScanResult>, id: &str) -> (i: usize)
    ensures
        i == position_of(views(categories@), id@),
        i <= categories@.len(),
{
    let ghost all = views(categories@);
    let mut i: usize = 0;
    while i < categories.len() && !str_eq(categories[i].scanner_id.as_str(), id)
        invariant
            i <= categories@.len(),
            all == views(categories@),
            forall|k: int| 0 <= k < i ==> (#[trigger] all[k]).scanner_id != id@,
        decreases categories.len() - i,
    {
        i += 1;
    }
    proof {
        lemma_first_match_is(all, |c: CategoryView| c.scanner_id == id@, i as int);
    }
    i
}

/// The report of a scan: the groups of findings, and how much they hold.
///
/// The two totals always are the sums over the groups, stopping at the largest
/// number the machine can hold.
#[derive(Debug)]
pub struct ScanReport {
    categories: Vec<CategoryScanResult>,
    total_size: u64,
    total_items: usize,
    duration_ms: u64,
}

/// A report: its groups, and the time the scan took.
pub struct ReportView {
    pub categories: Seq<CategoryView>,
    pub duration_ms: u64,
}

impl ReportView {
    /// Bytes that all findings hold together.
    pub open spec fn total_size(self) -> u64 {
        clamp_u64(report_size(self.categories))
    }

    /// Number of findings.
    pub open spec fn total_items(self) -> usize {
        clamp_usize(report_items(self.categories))
    }

    /// A report without findings.
    pub open spec fn empty() -> ReportView {
        ReportView { categories: Seq::empty(), duration_ms: 0 }
    }
}

impl View for ScanReport {
    type V = ReportView;

    closed spec fn view(&self) -> ReportView {
        ReportView { categories: views(self.categories@), duration_ms: self.duration_ms }
    }
}

impl ScanReport {
    #[verifier::type_invariant]
    closed spec fn totals_are_sums(self) -> bool {
        &&& self.total_size == clamp_u64(report_size(views(self.categories@)))
        &&& self.total_items == clamp_usize(report_items(views(self.categories@)))
    }

    /// A report without findings.
    pub fn new() -> (r: Self)
        ensures
            r@ == ReportView::empty(),
    {
        let r = ScanReport {
            categories: Vec::new(),
            total_size: 0,
            total_items: 0,
            duration_ms: 0,
        };
        assert(r@.categories =~= Seq::<CategoryView>::empty());
        r
    }

    /// The report over `categories`, with its totals computed from them.
    pub fn from_categories(categories: Vec<CategoryScanResult>, duration_ms: u64) -> (r: Self)
        ensures
            r@ == (ReportView { categories: views(categories@), duration_ms }),
    {
        let (total_size, total_items) = totals_of(&categories);
        ScanReport { categories, total_size, total_items, duration_ms }
    }

    /// The groups of findings.
    pub fn categories(&self) -> (r: &Vec<CategoryScanResult>)
        ensures
            views(r@) == self@.categories,
    {
        &self.categories
    }

    /// Bytes that all findings hold together: the sum over the groups.
    pub fn total_size(&self) -> (r: u64)
        ensures
            r == self@.total_size(),
    {
        proof {
            use_type_invariant(self);
        }
        self.total_size
    }

    /// Number of findings: the sum over the groups.
    pub fn total_items(&self) -> (r: usize)
        ensures
            r == self@.total_items(),
    {
        proof {
            use_type_invariant(self);
        }
        self.total_items
    }

    /// Time the scan took, in milliseconds.
    pub fn duration_ms(&self) -> (r: u64)
        ensures
            r == self@.duration_ms,
    {
        self.duration_ms
    }

    /// Records the time the scan took.
    pub fn set_duration_ms(&mut self, duration_ms: u64)
        ensures
            final(self)@ == (ReportView { duration_ms, ..old(self)@ }),
    {
        proof {
            use_type_invariant(&*self);
        }
        self.duration_ms = duration_ms;
    }

    /// Whether the report holds no finding.
    pub fn is_empty(&self) -> (r: bool)
        ensures
            r == (self@.categories.len() == 0 || report_items(self@.categories) == 0),
    {
        proof {
            use_type_invariant(self);
        }
        self.categories.len() == 0 || self.total_items == 0
    }

    /// Takes the groups out and leaves an empty report.
    pub(crate) fn take_categories(&mut self) -> (r: Vec<CategoryScanResult>)
        ensures
            views(r@) == old(self)@.categories,
            final(self)@.categories.len() == 0,
            final(self)@.duration_ms == old(self)@.duration_ms,
    {
        let mut taken = ScanReport {
            categories: Vec::new(),
            total_size: 0,
            total_items: 0,
            duration_ms: self.duration_ms,
        };
        core::mem::swap(self, &mut taken);
        taken.categories
    }

    /// Puts `categories` in place of the report's groups; the totals follow.
    pub(crate) fn replace_categories(&mut self, categories: Vec<CategoryScanResult>)
        ensures
            final(self)@ == (ReportView { categories: views(categories@), ..old(self)@ }),
    {
        let duration_ms = self.duration_ms;
        let (total_size, total_items) = totals_of(&categories);
        *self = ScanReport { categories, total_size, total_items, duration_ms };
    }

    /// Removes the groups of the scanners `ids` and keeps every other group
    /// as it is, in its place among those that stay.
    pub fn remove_categories(&mut self, ids: &Vec<String>)
        ensures
            final(self)@ == (ReportView {
                categories: without_scanners(old(self)@.categories, texts(ids@)),
                ..old(self)@
            }),
    {
        let ghost before = self@.categories;
        let ghost listed = texts(ids@);
        let ghost keep = |c: CategoryView| !listed.contains(c.scanner_id);
        let duration_ms = self.duration_ms;
        let mut rest = reversed(self.take_categories());
        let mut kept: Vec<CategoryScanResult> = Vec::new();
        let mut done: usize = 0;
        proof {
            reveal(Seq::filter);
            assert(before.take(0).filter(keep) =~= views(kept@));
            assert(before.len() == rest.len());
        }
        while rest.len() > 0
            invariant
                done + rest@.len() == before.len(),
                forall|j: int|
                    0 <= j < rest@.len() ==> (#[trigger] rest@[j])@ == before[before.len() - 1
                        - j],
                views(kept@) == before.take(done as int).filter(keep),
                listed == texts(ids@),
                keep == |c: CategoryView| !listed.contains(c.scanner_id),
                before.len() <= usize::MAX,
            decreases rest.len(),
        {
            let c = rest.pop().unwrap();
            let ghost kept_before = kept@;
            proof {
                reveal(Seq::filter);
                assert(c@ == before[done as int]);
                assert(before.take(done + 1).drop_last() == before.take(done as int));
                assert(before.take(done + 1).last() == c@);
            }
            if !id_listed(ids, c.scanner_id.as_str()) {
                kept.push(c);
                assert(views(kept@) =~= views(kept_before).push(c@));
            }
            done += 1;
        }
        assert(before.take(done as int) == before);
        let (total_size, total_items) = totals_of(&kept);
        *self = ScanReport { categories: kept, total_size, total_items, duration_ms };
    }

    /// Adds `item` to the findings of scanner `scanner_id`. Returns whether a
    /// group was added for it.
    pub fn add_item(&mut self, scanner_id: &str, item: ScanResult) -> (added_group: bool)
        ensures
            final(self)@ == (ReportView {
                categories: with_item(old(self)@.categories, scanner_id@, item@),
                ..old(self)@
            }),
            added_group == (position_of(old(self)@.categories, scanner_id@) == old(self)@.categories.len()),
    {
        proof {
            use_type_invariant(&*self);
        }
        let ghost before = self@.categories;
        let total_size = add_clamped(self.total_size, item.size);
        let total_items = add_clamped_usize(self.total_items, 1);
        let duration_ms = self.duration_ms;
        let mut categories = self.take_categories();
        let i = find_group(&categories, scanner_id);
        if i < categories.len() {
            let mut group = categories.remove(i);
            let ghost prior = group@;
            group.items.push(item);
            assert(group@.items =~= prior.items.push(item@));
            assert(group@.items.drop_last() =~= prior.items);
            categories.insert(i, group);
            proof {
                assert(views(categories@) =~= before.update(i as int, group@));
                lemma_totals_update(before, i as int, group@);
            }
            *self = ScanReport { categories, total_size, total_items, duration_ms };
            false
        } else {
            let mut items: Vec<ScanResult> = Vec::new();
            items.push(item);
            let group = CategoryScanResult {
                scanner_id: String::from_str(scanner_id),
                name: String::from_str(scanner_id),
                category: ScannerCategory::System,
                icon: String::new(),
                items,
            };
            proof {
                lemma_totals_push(before, group@);
                assert(group@.items =~= seq![item@]);
                assert(group@.items.drop_last() =~= Seq::<ScanResultView>::empty());
                assert(sum_sizes(Seq::<ScanResultView>::empty()) == 0);
                assert(group@.items.last() == item@);
                assert(sum_sizes(group@.items) == item.size);
                assert(group@.icon =~= Seq::<char>::empty());
            }
            categories.push(group);
            assert(views(categories@) =~= before.push(group@));
            *self = ScanReport { categories, total_size, total_items, duration_ms };
            true
        }
    }

    /// Books that scanner `scanner_id` finished, under the name and category
    /// it reported.
    pub fn finish_scanner(&mut self, scanner_id: &str, name: String, category: ScannerCategory)
        ensures
            final(self)@ == (ReportView {
                categories: with_scanner_done(
                    old(self)@.categories,
                    scanner_id@,
                    name@,
                    category,
                ),
                ..old(self)@
            }),
    {
        proof {
            use_type_invariant(&*self);
        }
        let ghost before = self@.categories;
        let total_size = self.total_size;
        let total_items = self.total_items;
        let duration_ms = self.duration_ms;
        let mut categories = self.take_categories();
        let i = find_group(&categories, scanner_id);
        if i < categories.len() {
            let mut group = categories.remove(i);
            group.name = name;
            group.category = category;
            categories.insert(i, group);
            proof {
                assert(views(categories@) =~= before.update(i as int, group@));
                lemma_totals_update(before, i as int, group@);
            }
        }
        *self = ScanReport { categories, total_size, total_items, duration_ms };
    }
}

/// A group whose scanner is not rescanned is in the report after the rescan
/// began, with the findings it had, and groups that stay keep their order.
pub proof fn lemma_rescan_keeps_other_groups(
    categories: Seq<CategoryView>,
    ids: Seq<Seq<char>>,
    i: int,
)
    requires
        0 <= i < categories.len(),
        !ids.contains(categories[i].scanner_id),
    ensures
        without_scanners(categories, ids).contains(categories[i]),
        without_scanners(categories.take(i), ids).len() < without_scanners(categories, ids).len(),
        without_scanners(categories, ids)[without_scanners(categories.take(i), ids).len() as int]
            == categories[i],
    decreases categories.len(),
{
    reveal(Seq::filter);
    let keep = |c: CategoryView| !ids.contains(c.scanner_id);
    let head = categories.drop_last();
    if i == categories.len() - 1 {
        assert(categories.take(i) == head);
        let kept = head.filter(keep);
        assert(categories.filter(keep) == kept.push(categories[i]));
        assert(categories.filter(keep)[kept.len() as int] == categories[i]);
    } else {
        lemma_rescan_keeps_other_groups(head, ids, i);
        assert(head.take(i) == categories.take(i));
        let inner = head.filter(keep);
        let k = without_scanners(categories.take(i), ids).len() as int;
        assert(inner[k] == categories[i]);
        if keep(categories.last()) {
            assert(categories.filter(keep) == inner.push(categories.last()));
        } else {
            assert(categories.filter(keep) == inner);
        }
        assert(categories.filter(keep)[k] == categories[i]);
    }
}

/// The groups that a rescan removes are exactly those of the scanners that
/// are rescanned: none of them is left.
pub proof fn lemma_rescan_removes_listed_groups(categories: Seq<CategoryView>, ids: Seq<Seq<char>>)
    ensures
        forall|k: int|
            0 <= k < without_scanners(categories, ids).len() ==> !ids.contains(
                (#[trigger] without_scanners(categories, ids)[k]).scanner_id,
            ),
{
    let keep = |c: CategoryView| !ids.contains(c.scanner_id);
    assert forall|k: int| 0 <= k < without_scanners(categories, ids).len() implies !ids.contains(
        (#[trigger] without_scanners(categories, ids)[k]).scanner_id,
    ) by {
        categories.lemma_filter_pred(keep, k);
    }
}

/// The items of `v`, last one first.
pub fn reversed<T>(v: Vec<T>) -> (r: Vec<T>)
    ensures
        r@.len() == v@.len(),
        forall|j: int| 0 <= j < r@.len() ==> r@[j] == v@[v@.len() - 1 - j],
{
    let ghost input = v@;
    let mut v = v;
    let mut r: Vec<T> = Vec::new();
    while v.len() > 0
        invariant
            v@ == input.take(v@.len() as int),
            v@.len() <= input.len(),
            r@.len() == input.len() - v@.len(),
            forall|j: int| 0 <= j < r@.len() ==> r@[j] == input[input.len() - 1 - j],
        decreases v.len(),
    {
        let x = v.pop().unwrap();
        assert(v@ == input.take(v@.len() as int));
        r.push(x);
    }
    r
}

/// The group in which the scanner `kind` hands in the findings `items`.
pub open spec fn group_of(kind: ScannerKind, items: Seq<ScanResultView>) -> CategoryView {
    CategoryView {
        scanner_id: kind.ident(),
        name: kind.title(),
        category: kind.group(),
        icon: Seq::empty(),
        items,
    }
}

/// What each scanner found, as sequences of views: `None` for a scanner
/// that had nothing to look at.
pub open spec fn findings(found: Seq<Option<Vec<ScanResult>>>) -> Seq<Option<Seq<ScanResultView>>> {
    found.map_values(
        |f: Option<Vec<ScanResult>>|
            match f {
                Some(items) => Some(views(items@)),
                None => None,
            },
    )
}

/// The groups of a scan by the scanners `kinds`, where `found[i]` is what
/// the `i`-th of them found: one group for each scanner that ran, in the
/// order of the scanners, also where it found nothing. A scanner for which
/// nothing was handed in has no group.
pub open spec fn grouped(
    kinds: Seq<ScannerKind>,
    found: Seq<Option<Seq<ScanResultView>>>,
) -> Seq<CategoryView>
    decreases kinds.len(),
{
    if kinds.len() == 0 {
        Seq::empty()
    } else {
        let before = grouped(kinds.drop_last(), found);
        let i = kinds.len() - 1;
        if i < found.len() && found[i] is Some {
            before.push(group_of(kinds.last(), found[i]->0))
        } else {
            before
        }
    }
}

/// The scanners of a scan that is not told which to run.
pub open spec fn default_kinds() -> Seq<ScannerKind> {
    seq![
        ScannerKind::SystemCaches,
        ScannerKind::SystemLogs,
        ScannerKind::Trash,
        ScannerKind::BrowserCaches,
        ScannerKind::DevJunk,
    ]
}

/// The scanners and cleaners that a scan and a clean-up use, in the order
/// in which they were registered.
pub struct PluginRegistry {
    scanners: Vec<ScannerKind>,
    cleaners: Vec<DefaultCleaner>,
}

impl PluginRegistry {
    /// The registered scanners, in order.
    pub closed spec fn kinds(&self) -> Seq<ScannerKind> {
        self.scanners@
    }

    /// Number of registered cleaners.
    pub closed spec fn cleaner_count(&self) -> nat {
        self.cleaners@.len()
    }

    /// A registry with nothing registered.
    pub fn new() -> (r: Self)
        ensures
            r.kinds() == Seq::<ScannerKind>::empty(),
            r.cleaner_count() == 0,
    {
        PluginRegistry { scanners: Vec::new(), cleaners: Vec::new() }
    }

    /// Registers `scanner` after those that are registered.
    pub fn register_scanner(&mut self, scanner: ScannerKind)
        ensures
            final(self).kinds() == old(self).kinds().push(scanner),
            final(self).cleaner_count() == old(self).cleaner_count(),
    {
        self.scanners.push(scanner);
    }

    /// Registers `cleaner` after those that are registered.
    pub fn register_cleaner(&mut self, cleaner: DefaultCleaner)
        ensures
            final(self).kinds() == old(self).kinds(),
            final(self).cleaner_count() == old(self).cleaner_count() + 1,
    {
        self.cleaners.push(cleaner);
    }

    /// The registered scanners, in order.
    pub fn scanners(&self) -> (r: &Vec<ScannerKind>)
        ensures
            r@ == self.kinds(),
    {
        &self.scanners
    }

    /// The report of a scan by all registered scanners, where `found[i]` is
    /// what the `i`-th scanner found, or `None` where it had nothing to look
    /// at. The totals are those of the groups.
    pub fn scan_all(&self, found: Vec<Option<Vec<ScanResult>>>, duration_ms: u64) -> (r: ScanReport)
        ensures
            r@ == (ReportView {
                categories: grouped(self.kinds(), findings(found@)),
                duration_ms,
            }),
    {
        let ghost all = findings(found@);
        let ghost kinds = self.scanners@;
        let handed = found.len();
        let mut rest = reversed(found);
        let mut groups: Vec<CategoryScanResult> = Vec::new();
        let mut i: usize = 0;
        assert(kinds.take(0) =~= Seq::<ScannerKind>::empty());
        assert(views(groups@) =~= grouped(kinds.take(0), all));
        while i < self.scanners.len()
            invariant
                i <= kinds.len(),
                kinds == self.scanners@,
                handed == all.len(),
                rest@.len() == if i < handed {
                    handed - i
                } else {
                    0
                },
                forall|j: int|
                    0 <= j < rest@.len() ==> all[handed - 1 - j] == match #[trigger] rest@[j] {
                        Some(items) => Some(views(items@)),
                        None => None,
                    },
                views(groups@) == grouped(kinds.take(i as int), all),
            decreases self.scanners.len() - i,
        {
            let kind = self.scanners[i];
            proof {
                assert(kinds.take(i + 1).drop_last() == kinds.take(i as int));
                assert(kinds.take(i + 1).last() == kind);
            }
            let entry: Option<Vec<ScanResult>> = if rest.len() > 0 {
                rest.pop().unwrap()
            } else {
                None
            };
            let ghost before = groups@;
            match entry {
                Some(items) => {
                    assert(all[i as int] == Some(views(items@)));
                    let group = CategoryScanResult {
                        scanner_id: String::from_str(kind.scanner_id()),
                        name: String::from_str(kind.name()),
                        category: kind.category(),
                        icon: String::new(),
                        items,
                    };
                    assert(group@ == group_of(kind, views(items@)));
                    groups.push(group);
                    assert(views(groups@) =~= views(before).push(group@));
                },
                None => {
                    assert(i < handed ==> all[i as int] is None);
                },
            }
            i += 1;
        }
        assert(kinds.take(kinds.len() as int) == kinds);
        ScanReport::from_categories(groups, duration_ms)
    }

    /// The result of a clean-up by the first registered cleaner; without a
    /// cleaner nothing is cleaned.
    pub fn clean(
        &self,
        items: &Vec<ScanResult>,
        config: &CleanConfig,
        outcomes: Vec<StepOutcome>,
    ) -> (r: CleanResult)
        ensures
            matches_result(
                r,
                if self.cleaner_count() > 0 {
                    cleaned(views(items@), config.dry_run, outcomes@.map_values(|o: StepOutcome| o@))
                } else {
                    cleaned(Seq::empty(), config.dry_run, Seq::empty())
                },
            ),
    {
        if self.cleaners.len() > 0 {
            self.cleaners[0].clean(items, config, outcomes)
        } else {
            let nothing = CleanResult::new();
            assert(failures(nothing.failed_items@) =~= Seq::<(Seq<char>, Seq<char>)>::empty());
            nothing
        }
    }
}

impl Default for PluginRegistry {
    /// The registry of a scan that is not told which scanners to run.
    fn default() -> (r: Self)
        ensures
            r.kinds() == default_kinds(),
            r.cleaner_count() == 0,
    {
        let mut r = PluginRegistry::new();
        r.register_scanner(ScannerKind::SystemCaches);
        r.register_scanner(ScannerKind::SystemLogs);
        r.register_scanner(ScannerKind::Trash);
        r.register_scanner(ScannerKind::BrowserCaches);
        r.register_scanner(ScannerKind::DevJunk);
        assert(r.kinds() =~= default_kinds());
        r
    }
}

} // verus!
