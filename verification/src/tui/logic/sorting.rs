//! The four orders in which the findings of a group can be listed.

use crate::paths::{file_name_or, name_or};
use crate::plugin::registry::{CategoryView, ReportView};
use crate::plugin::{CategoryScanResult, ScanReport, ScanResult, ScanResultView};
use crate::scanner::LargestFirst;
use crate::sorting::{sort_stable, stable_sort, views, Order, Precedence};
use crate::text::{lowercase, to_chars, to_lowercase};
use crate::tui::state::SortMode;
use vstd::prelude::*;

verus! {

/// `a` stands before `b` in the dictionary, characters compared by their
/// code points.
pub open spec fn lex_less(a: Seq<char>, b: Seq<char>) -> bool
    decreases a.len(),
{
    if b.len() == 0 {
        false
    } else if a.len() == 0 {
        true
    } else if a[0] != b[0] {
        (a[0] as u32) < (b[0] as u32)
    } else {
        lex_less(a.drop_first(), b.drop_first())
    }
}

/// With a common start of `k` characters, the order of two texts is the
/// order of what follows.
proof fn lemma_lex_less_skip(a: Seq<char>, b: Seq<char>, k: int)
    requires
        0 <= k <= a.len(),
        k <= b.len(),
        forall|j: int| 0 <= j < k ==> a[j] == b[j],
    ensures
        lex_less(a, b) == lex_less(a.skip(k), b.skip(k)),
    decreases k,
{
    if k == 0 {
        assert(a.skip(0) == a);
        assert(b.skip(0) == b);
    } else {
        assert(a[0] == b[0]);
        let a1 = a.drop_first();
        let b1 = b.drop_first();
        assert forall|j: int| 0 <= j < k - 1 implies a1[j] == b1[j] by {
            assert(a1[j] == a[j + 1] && b1[j] == b[j + 1]);
        }
        lemma_lex_less_skip(a1, b1, k - 1);
        assert(a1.skip(k - 1) == a.skip(k));
        assert(b1.skip(k - 1) == b.skip(k));
    }
}

/// Whether `a` stands before `b` in the dictionary.
pub fn chars_less(a: &Vec<char>, b: &Vec<char>) -> (r: bool)
    ensures
        r == lex_less(a@, b@),
{
    let mut i: usize = 0;
    while i < a.len() && i < b.len() && a[i] == b[i]
        invariant
            i <= a@.len(),
            i <= b@.len(),
            forall|j: int| 0 <= j < i ==> a@[j] == b@[j],
        decreases a.len() - i,
    {
        i += 1;
    }
    proof {
        lemma_lex_less_skip(a@, b@, i as int);
    }
    if i >= b.len() {
        false
    } else if i >= a.len() {
        true
    } else {
        assert(a@.skip(i as int)[0] == a@[i as int]);
        assert(b@.skip(i as int)[0] == b@[i as int]);
        (a[i] as u32) < (b[i] as u32)
    }
}

/// The text by which a finding is ordered by name: the file name of its
/// path, in lower case; the empty text where the path has none.
pub open spec fn sort_name(item: ScanResultView) -> Seq<char> {
    lowercase(name_or(item.path, Seq::empty()))
}

fn name_key(item: &ScanResult) -> (r: Vec<char>)
    ensures
        r@ == sort_name(item@),
{
    proof {
        reveal_strlit("");
        assert(""@ =~= Seq::<char>::empty());
    }
    to_chars(to_lowercase(file_name_or(item.path.as_str(), "").as_str()).as_str())
}

/// Smaller findings first.
pub struct SmallestFirst;

impl Precedence<ScanResultView> for SmallestFirst {
    open spec fn before(a: ScanResultView, b: ScanResultView) -> bool {
        a.size < b.size
    }
}

impl Order<ScanResult> for SmallestFirst {
    fn precedes(a: &ScanResult, b: &ScanResult) -> (r: bool) {
        a.size < b.size
    }
}

/// By name, from A to Z.
pub struct NameAscending;

impl Precedence<ScanResultView> for NameAscending {
    open spec fn before(a: ScanResultView, b: ScanResultView) -> bool {
        lex_less(sort_name(a), sort_name(b))
    }
}

impl Order<ScanResult> for NameAscending {
    fn precedes(a: &ScanResult, b: &ScanResult) -> (r: bool) {
        chars_less(&name_key(a), &name_key(b))
    }
}

/// By name, from Z to A.
pub struct NameDescending;

impl Precedence<ScanResultView> for NameDescending {
    open spec fn before(a: ScanResultView, b: ScanResultView) -> bool {
        lex_less(sort_name(b), sort_name(a))
    }
}

impl Order<ScanResult> for NameDescending {
    fn precedes(a: &ScanResult, b: &ScanResult) -> (r: bool) {
        chars_less(&name_key(b), &name_key(a))
    }
}

/// The findings `items` in the order `mode`; findings that the order does
/// not tell apart stay as they were.
pub open spec fn listed(items: Seq<ScanResultView>, mode: SortMode) -> Seq<ScanResultView> {
    match mode {
        SortMode::SizeDesc => stable_sort::<ScanResultView, LargestFirst>(items),
        SortMode::SizeAsc => stable_sort::<ScanResultView, SmallestFirst>(items),
        SortMode::NameAsc => stable_sort::<ScanResultView, NameAscending>(items),
        SortMode::NameDesc => stable_sort::<ScanResultView, NameDescending>(items),
    }
}

/// The group with its findings in the order `mode`.
pub open spec fn group_listed(group: CategoryView, mode: SortMode) -> CategoryView {
    CategoryView { items: listed(group.items, mode), ..group }
}

/// Puts the findings `items` into the order `mode`.
pub fn sort_items(items: &mut Vec<ScanResult>, mode: SortMode)
    ensures
        views(final(items)@) == listed(views(old(items)@), mode),
{
    match mode {
        SortMode::SizeDesc => sort_stable::<ScanResult, LargestFirst>(items),
        SortMode::SizeAsc => sort_stable::<ScanResult, SmallestFirst>(items),
        SortMode::NameAsc => sort_stable::<ScanResult, NameAscending>(items),
        SortMode::NameDesc => sort_stable::<ScanResult, NameDescending>(items),
    }
}

/// Puts the findings of every group of the report into the order
/// `sort_mode`. The groups keep their places, and each group its findings.
pub fn apply_sort(report: &mut ScanReport, sort_mode: SortMode)
    ensures
        final(report)@ == (ReportView {
            categories: old(report)@.categories.map_values(
                |g: CategoryView| group_listed(g, sort_mode),
            ),
            ..old(report)@
        }),
{
    let ghost before = report@.categories;
    let mut rest = crate::plugin::registry::reversed(report.take_categories());
    let mut groups: Vec<CategoryScanResult> = Vec::new();
    assert(before.len() == rest.len());
    while rest.len() > 0
        invariant
            groups@.len() + rest@.len() == before.len(),
            forall|j: int|
                0 <= j < rest@.len() ==> (#[trigger] rest@[j])@ == before[before.len() - 1 - j],
            forall|k: int|
                0 <= k < groups@.len() ==> (#[trigger] groups@[k])@ == group_listed(
                    before[k],
                    sort_mode,
                ),
            report@.duration_ms == old(report)@.duration_ms,
        decreases rest.len(),
    {
        let mut group = rest.pop().unwrap();
        assert(group@ == before[groups@.len() as int]);
        sort_items(&mut group.items, sort_mode);
        groups.push(group);
    }
    assert(views(groups@) =~= before.map_values(|g: CategoryView| group_listed(g, sort_mode)));
    report.replace_categories(groups);
}

} // verus!
