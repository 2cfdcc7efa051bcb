//! Documents made from a report: which groups a filter takes up, the scan
//! result that is written for them, the plan that follows from a scan
//! result, and the findings that a clean-up from the command line takes.

use super::json_schema::{
    stated_items, stated_size, CategoryPlanResult, CategoryScanResult, PlanItem, PlanResult,
    ScanItem, ScanResult,
};
use crate::metadata::spotlight::FileMetadata;
use crate::plugin::registry::{add_clamped, clamp_u64, clamp_usize, sum_sizes, CategoryView};
use crate::plugin::{ScanReport, ScanResultView};
use crate::sorting::views;
use crate::text::{chars_contain, has_infix, lowercase, str_eq, to_chars, to_lowercase};
use crate::time::Timestamp;
use vstd::prelude::*;

verus! {

/// Which scanners' findings are asked for.
#[derive(Debug)]
pub enum CategoryFilter {
    /// Those of every scanner.
    Everything,
    /// Those of the scanners whose identity contains the lower-case form of
    /// this text.
    Containing(String),
}

/// A filter, with its text as a character sequence.
pub enum FilterView {
    Everything,
    Containing(Seq<char>),
}

impl View for CategoryFilter {
    type V = FilterView;

    open spec fn view(&self) -> FilterView {
        match self {
            CategoryFilter::Everything => FilterView::Everything,
            CategoryFilter::Containing(c) => FilterView::Containing(c@),
        }
    }
}

impl FilterView {
    /// The filter asks for the findings of scanner `scanner_id`.
    pub open spec fn passes(self, scanner_id: Seq<char>) -> bool {
        match self {
            FilterView::Everything => true,
            FilterView::Containing(c) => has_infix(scanner_id, lowercase(c)),
        }
    }
}

impl CategoryFilter {
    /// The filter that a category's name stands for: `all` asks for every
    /// scanner, any other name for those whose identity contains it.
    pub fn named(category: &str) -> (r: Self)
        ensures
            r@ == if category@ == "all"@ {
                FilterView::Everything
            } else {
                FilterView::Containing(category@)
            },
    {
        if str_eq(category, "all") {
            CategoryFilter::Everything
        } else {
            CategoryFilter::Containing(String::from_str(category))
        }
    }

    /// The filter that an optional category stands for: without one every
    /// scanner is asked for, with one those whose identity contains it. Here
    /// `all` is a name like any other.
    pub fn optional(category: Option<&str>) -> (r: Self)
        ensures
            r@ == match category {
                Some(c) => FilterView::Containing(c@),
                None => FilterView::Everything,
            },
    {
        match category {
            Some(c) => CategoryFilter::Containing(String::from_str(c)),
            None => CategoryFilter::Everything,
        }
    }

    /// Whether the filter asks for the findings of scanner `scanner_id`.
    pub fn admits(&self, scanner_id: &str) -> (r: bool)
        ensures
            r == self@.passes(scanner_id@),
    {
        match self {
            CategoryFilter::Everything => true,
            CategoryFilter::Containing(c) => chars_contain(
                &to_chars(scanner_id),
                &to_chars(to_lowercase(c.as_str()).as_str()),
            ),
        }
    }
}

/// One finding of a scan result, with its path as a character sequence.
pub struct ScanItemView {
    pub path: Seq<char>,
    pub size_bytes: u64,
    pub modified: Timestamp,
    pub last_used: Option<Timestamp>,
    pub use_count: Option<u32>,
}

impl View for ScanItem {
    type V = ScanItemView;

    open spec fn view(&self) -> ScanItemView {
        ScanItemView {
            path: self.path@,
            size_bytes: self.size_bytes,
            modified: self.modified,
            last_used: self.last_used,
            use_count: self.use_count,
        }
    }
}

/// The findings of one scanner in a scan result, with the texts as
/// character sequences.
pub struct GroupDocument {
    pub id: Seq<char>,
    pub name: Seq<char>,
    pub description: Seq<char>,
    pub size_bytes: u64,
    pub item_count: usize,
    pub items: Seq<ScanItemView>,
}

impl View for CategoryScanResult {
    type V = GroupDocument;

    open spec fn view(&self) -> GroupDocument {
        GroupDocument {
            id: self.id@,
            name: self.name@,
            description: self.description@,
            size_bytes: self.size_bytes,
            item_count: self.item_count,
            items: views(self.items@),
        }
    }
}

/// What a scan result says of the finding `item`: its path and size, when
/// it was modified (the time `now` where that is not known), and what its
/// usage metadata `meta` tell.
pub open spec fn item_document(
    item: ScanResultView,
    meta: Option<FileMetadata>,
    now: Timestamp,
) -> ScanItemView {
    ScanItemView {
        path: item.path,
        size_bytes: item.size,
        modified: match item.last_modified {
            Some(t) => t,
            None => now,
        },
        last_used: match meta {
            Some(m) => m.last_used,
            None => None,
        },
        use_count: match meta {
            Some(m) => m.use_count,
            None => None,
        },
    }
}

/// What a scan result that is made on the way to a plan says of the
/// finding `item`: its path and size, under the time `now`.
pub open spec fn plain_document(item: ScanResultView, now: Timestamp) -> ScanItemView {
    ScanItemView {
        path: item.path,
        size_bytes: item.size,
        modified: now,
        last_used: None,
        use_count: None,
    }
}

/// The usage metadata of the `i`-th finding, where `metadata` has them.
pub open spec fn meta_at(metadata: Seq<Option<FileMetadata>>, i: int) -> Option<FileMetadata> {
    if 0 <= i < metadata.len() {
        metadata[i]
    } else {
        None
    }
}

/// The usage metadata of the findings of the `g`-th group, where
/// `metadata` has them.
pub open spec fn metas_of(metadata: Seq<Vec<Option<FileMetadata>>>, g: int) -> Seq<
    Option<FileMetadata>,
> {
    if 0 <= g < metadata.len() {
        metadata[g]@
    } else {
        Seq::empty()
    }
}

/// What a scan result says of the findings `items`, with their usage
/// metadata.
pub open spec fn detailed_items(
    items: Seq<ScanResultView>,
    metadata: Seq<Option<FileMetadata>>,
    now: Timestamp,
) -> Seq<ScanItemView> {
    Seq::new(items.len(), |i: int| item_document(items[i], meta_at(metadata, i), now))
}

/// What a scan result on the way to a plan says of the findings `items`.
pub open spec fn plain_items(items: Seq<ScanResultView>, now: Timestamp) -> Seq<ScanItemView> {
    items.map_values(|item: ScanResultView| plain_document(item, now))
}

/// The group of a scan result that stands for the group `group` of a
/// report, with `items` for its findings.
pub open spec fn group_document(group: CategoryView, items: Seq<ScanItemView>) -> GroupDocument {
    GroupDocument {
        id: group.scanner_id,
        name: group.name,
        description: Seq::empty(),
        size_bytes: clamp_u64(group.size_bytes()),
        item_count: clamp_usize(items.len()),
        items,
    }
}

/// The groups of the scan result for the groups `categories` of a report:
/// those that the filter asks for, in their order, each finding with its
/// usage metadata.
pub open spec fn scan_groups(
    categories: Seq<CategoryView>,
    filter: FilterView,
    metadata: Seq<Vec<Option<FileMetadata>>>,
    now: Timestamp,
) -> Seq<GroupDocument>
    decreases categories.len(),
{
    if categories.len() == 0 {
        Seq::empty()
    } else {
        let before = scan_groups(categories.drop_last(), filter, metadata, now);
        let group = categories.last();
        if filter.passes(group.scanner_id) {
            before.push(
                group_document(
                    group,
                    detailed_items(group.items, metas_of(metadata, categories.len() - 1), now),
                ),
            )
        } else {
            before
        }
    }
}

/// The groups of the scan result that is made on the way to a plan: those
/// that the filter asks for, in their order.
pub open spec fn plan_groups(
    categories: Seq<CategoryView>,
    filter: FilterView,
    now: Timestamp,
) -> Seq<GroupDocument>
    decreases categories.len(),
{
    if categories.len() == 0 {
        Seq::empty()
    } else {
        let before = plan_groups(categories.drop_last(), filter, now);
        let group = categories.last();
        if filter.passes(group.scanner_id) {
            before.push(group_document(group, plain_items(group.items, now)))
        } else {
            before
        }
    }
}

fn detailed(
    items: &Vec<crate::plugin::ScanResult>,
    metadata: Option<&Vec<Option<FileMetadata>>>,
    now: Timestamp,
) -> (r: Vec<ScanItem>)
    ensures
        views(r@) == detailed_items(
            views(items@),
            match metadata {
                Some(m) => m@,
                None => Seq::empty(),
            },
            now,
        ),
{
    let ghost metas = match metadata {
        Some(m) => m@,
        None => Seq::empty(),
    };
    let mut out: Vec<ScanItem> = Vec::new();
    let mut i: usize = 0;
    while i < items.len()
        invariant
            i <= items@.len(),
            out@.len() == i,
            metas == match metadata {
                Some(m) => m@,
                None => Seq::<Option<FileMetadata>>::empty(),
            },
            forall|k: int|
                0 <= k < i ==> (#[trigger] out@[k])@ == item_document(
                    items@[k]@,
                    meta_at(metas, k),
                    now,
                ),
        decreases items.len() - i,
    {
        let item = &items[i];
        let meta: Option<FileMetadata> = match metadata {
            Some(m) => if i < m.len() {
                m[i]
            } else {
                None
            },
            None => None,
        };
        assert(meta == meta_at(metas, i as int));
        out.push(
            ScanItem {
                path: item.path.clone(),
                size_bytes: item.size,
                modified: match item.last_modified {
                    Some(t) => t,
                    None => now,
                },
                last_used: match meta {
                    Some(m) => m.last_used,
                    None => None,
                },
                use_count: match meta {
                    Some(m) => m.use_count,
                    None => None,
                },
            },
        );
        i += 1;
    }
    assert(views(out@) =~= detailed_items(views(items@), metas, now));
    out
}

fn plain(items: &Vec<crate::plugin::ScanResult>, now: Timestamp) -> (r: Vec<ScanItem>)
    ensures
        views(r@) == plain_items(views(items@), now),
{
    let mut out: Vec<ScanItem> = Vec::new();
    let mut i: usize = 0;
    while i < items.len()
        invariant
            i <= items@.len(),
            out@.len() == i,
            forall|k: int| 0 <= k < i ==> (#[trigger] out@[k])@ == plain_document(items@[k]@, now),
        decreases items.len() - i,
    {
        out.push(
            ScanItem {
                path: items[i].path.clone(),
                size_bytes: items[i].size,
                modified: now,
                last_used: None,
                use_count: None,
            },
        );
        i += 1;
    }
    assert(views(out@) =~= plain_items(views(items@), now));
    out
}

fn document_of(group: &crate::plugin::CategoryScanResult, items: Vec<ScanItem>) -> (r:
    CategoryScanResult)
    ensures
        r@ == group_document(group@, views(items@)),
{
    let r = CategoryScanResult {
        id: group.scanner_id.clone(),
        name: group.name.clone(),
        description: String::new(),
        size_bytes: group.total_size(),
        item_count: items.len(),
        items,
    };
    assert(r@.description =~= Seq::<char>::empty());
    r
}

/// The scan result for `report`: the groups that the filter asks for, each
/// finding with the usage metadata that `metadata` holds for it, where
/// `metadata[g][i]` belongs to the `i`-th finding of the report's `g`-th
/// group. The totals are the sums of what the groups state.
pub fn scan_document(
    report: &ScanReport,
    filter: &CategoryFilter,
    metadata: &Vec<Vec<Option<FileMetadata>>>,
    duration_ms: u64,
    now: Timestamp,
) -> (r: ScanResult)
    ensures
        views(r.categories@) == scan_groups(report@.categories, filter@, metadata@, now),
        r.version@ == super::json_schema::schema_version(),
        r.timestamp == now,
        r.total_size_bytes == clamp_u64(stated_size(r.categories@)),
        r.total_item_count == clamp_usize(stated_items(r.categories@)),
        r.scan_duration_ms == duration_ms,
{
    let groups = report.categories();
    let ghost all = report@.categories;
    let mut out: Vec<CategoryScanResult> = Vec::new();
    let mut g: usize = 0;
    assert(views(out@) =~= scan_groups(all.take(0), filter@, metadata@, now));
    while g < groups.len()
        invariant
            g <= groups@.len(),
            all == views(groups@),
            views(out@) == scan_groups(all.take(g as int), filter@, metadata@, now),
        decreases groups.len() - g,
    {
        proof {
            assert(all.take(g + 1).drop_last() == all.take(g as int));
            assert(all.take(g + 1).last() == groups@[g as int]@);
        }
        if filter.admits(groups[g].scanner_id.as_str()) {
            let known: Option<&Vec<Option<FileMetadata>>> = if g < metadata.len() {
                Some(&metadata[g])
            } else {
                None
            };
            let items = detailed(&groups[g].items, known, now);
            let document = document_of(&groups[g], items);
            let ghost before = out@;
            out.push(document);
            assert(views(out@) =~= views(before).push(document@));
        }
        g += 1;
    }
    assert(all.take(groups@.len() as int) == all);
    ScanResult::new(out, duration_ms, now)
}

/// The scan result for `report` that is made on the way to a plan: the
/// groups that the filter asks for, every finding under the time `now`.
pub fn plan_scan_document(report: &ScanReport, filter: &CategoryFilter, now: Timestamp) -> (r:
    ScanResult)
    ensures
        views(r.categories@) == plan_groups(report@.categories, filter@, now),
        r.version@ == super::json_schema::schema_version(),
        r.timestamp == now,
        r.total_size_bytes == clamp_u64(stated_size(r.categories@)),
        r.total_item_count == clamp_usize(stated_items(r.categories@)),
        r.scan_duration_ms == report@.duration_ms,
{
    let groups = report.categories();
    let ghost all = report@.categories;
    let mut out: Vec<CategoryScanResult> = Vec::new();
    let mut g: usize = 0;
    assert(views(out@) =~= plan_groups(all.take(0), filter@, now));
    while g < groups.len()
        invariant
            g <= groups@.len(),
            all == views(groups@),
            views(out@) == plan_groups(all.take(g as int), filter@, now),
        decreases groups.len() - g,
    {
        proof {
            assert(all.take(g + 1).drop_last() == all.take(g as int));
            assert(all.take(g + 1).last() == groups@[g as int]@);
        }
        if filter.admits(groups[g].scanner_id.as_str()) {
            let items = plain(&groups[g].items, now);
            let document = document_of(&groups[g], items);
            let ghost before = out@;
            out.push(document);
            assert(views(out@) =~= views(before).push(document@));
        }
        g += 1;
    }
    assert(all.take(groups@.len() as int) == all);
    ScanResult::new(out, report.duration_ms(), now)
}

/// One path of a plan, as a character sequence, with its size.
pub struct PlanItemView {
    pub path: Seq<char>,
    pub size_bytes: u64,
}

impl View for PlanItem {
    type V = PlanItemView;

    open spec fn view(&self) -> PlanItemView {
        PlanItemView { path: self.path@, size_bytes: self.size_bytes }
    }
}

/// What a plan does with the findings of one scanner, with the texts as
/// character sequences.
pub struct PlanGroup {
    pub id: Seq<char>,
    pub action: Seq<char>,
    pub items: Seq<PlanItemView>,
}

impl View for CategoryPlanResult {
    type V = PlanGroup;

    open spec fn view(&self) -> PlanGroup {
        PlanGroup { id: self.id@, action: self.action@, items: views(self.items@) }
    }
}

/// What a plan does with the group `group` of a scan result: it deletes
/// every finding.
pub open spec fn planned_group(group: GroupDocument) -> PlanGroup {
    PlanGroup {
        id: group.id,
        action: "delete"@,
        items: group.items.map_values(
            |item: ScanItemView| PlanItemView { path: item.path, size_bytes: item.size_bytes },
        ),
    }
}

/// The plan that follows from the scan result `scan`, which was read from
/// the file `scan_file` if one is named: every finding of every group is to
/// be deleted.
pub fn plan_of(scan: &ScanResult, scan_file: Option<String>, now: Timestamp) -> (r: PlanResult)
    ensures
        views(r.categories@) == views(scan.categories@).map_values(
            |group: GroupDocument| planned_group(group),
        ),
        r.version@ == super::json_schema::schema_version(),
        r.timestamp == now,
        r.scan_file == scan_file,
        r.total_size_bytes == clamp_u64(super::json_schema::plan_size(r.categories@)),
        r.warnings@.len() == 0,
{
    let mut out: Vec<CategoryPlanResult> = Vec::new();
    let mut g: usize = 0;
    while g < scan.categories.len()
        invariant
            g <= scan.categories@.len(),
            out@.len() == g,
            forall|k: int|
                0 <= k < g ==> (#[trigger] out@[k])@ == planned_group(scan.categories@[k]@),
        decreases scan.categories.len() - g,
    {
        let group = &scan.categories[g];
        let mut items: Vec<PlanItem> = Vec::new();
        let mut i: usize = 0;
        while i < group.items.len()
            invariant
                i <= group.items@.len(),
                items@.len() == i,
                forall|k: int|
                    0 <= k < i ==> (#[trigger] items@[k])@ == (PlanItemView {
                        path: group.items@[k].path@,
                        size_bytes: group.items@[k].size_bytes,
                    }),
            decreases group.items.len() - i,
        {
            items.push(
                PlanItem { path: group.items[i].path.clone(), size_bytes: group.items[i].size_bytes },
            );
            i += 1;
        }
        let planned = CategoryPlanResult {
            id: group.id.clone(),
            action: String::from_str("delete"),
            items,
        };
        assert(planned@.items =~= planned_group(group@).items);
        out.push(planned);
        g += 1;
    }
    assert(views(out@) =~= views(scan.categories@).map_values(
        |group: GroupDocument| planned_group(group),
    ));
    PlanResult::new(out, scan_file, now)
}

/// The findings of the groups of `categories` that the filter asks for,
/// group after group.
pub open spec fn findings_passing(categories: Seq<CategoryView>, filter: FilterView) -> Seq<
    ScanResultView,
>
    decreases categories.len(),
{
    if categories.len() == 0 {
        Seq::empty()
    } else {
        let before = findings_passing(categories.drop_last(), filter);
        if filter.passes(categories.last().scanner_id) {
            before + categories.last().items
        } else {
            before
        }
    }
}

/// The findings of `report` that the filter asks for, group after group.
pub fn findings_of(report: &ScanReport, filter: &CategoryFilter) -> (r: Vec<
    crate::plugin::ScanResult,
>)
    ensures
        views(r@) == findings_passing(report@.categories, filter@),
{
    let groups = report.categories();
    let ghost all = report@.categories;
    let mut out: Vec<crate::plugin::ScanResult> = Vec::new();
    let mut g: usize = 0;
    assert(views(out@) =~= findings_passing(all.take(0), filter@));
    while g < groups.len()
        invariant
            g <= groups@.len(),
            all == views(groups@),
            views(out@) == findings_passing(all.take(g as int), filter@),
        decreases groups.len() - g,
    {
        proof {
            assert(all.take(g + 1).drop_last() == all.take(g as int));
            assert(all.take(g + 1).last() == groups@[g as int]@);
        }
        if filter.admits(groups[g].scanner_id.as_str()) {
            let items = &groups[g].items;
            let ghost head = views(out@);
            let mut i: usize = 0;
            assert(head + views(items@).take(0) =~= head);
            while i < items.len()
                invariant
                    i <= items@.len(),
                    views(out@) == head + views(items@).take(i as int),
                decreases items.len() - i,
            {
                let ghost before = out@;
                out.push(items[i].clone());
                assert(views(out@) =~= views(before).push(items@[i as int]@));
                assert(head + views(items@).take(i + 1) =~= (head + views(items@).take(
                    i as int,
                )).push(items@[i as int]@));
                i += 1;
            }
            assert(views(items@).take(items@.len() as int) == views(items@));
        }
        g += 1;
    }
    assert(all.take(groups@.len() as int) == all);
    out
}

/// The bytes that the findings `items` hold together.
pub fn total_size_of(items: &Vec<crate::plugin::ScanResult>) -> (r: u64)
    ensures
        r == clamp_u64(sum_sizes(views(items@))),
{
    let ghost all = views(items@);
    let mut total: u64 = 0;
    let mut i: usize = 0;
    while i < items.len()
        invariant
            i <= items@.len(),
            all == views(items@),
            total == clamp_u64(sum_sizes(all.take(i as int))),
        decreases items.len() - i,
    {
        assert(all.take(i + 1).drop_last() == all.take(i as int));
        assert(all.take(i + 1).last() == items@[i as int]@);
        total = add_clamped(total, items[i].size);
        i += 1;
    }
    assert(all.take(items@.len() as int) == all);
    total
}

} // verus!
