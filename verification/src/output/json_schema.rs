//! The three documents and the rules by which one is made from another:
//! a scan result from a report, a plan from a scan result, the findings to
//! clean from a plan, and an execution result from the outcome of a
//! clean-up.

use crate::cleaner::failures;
use crate::paths::{file_name, file_name_of};
use crate::plugin::registry::{add_clamped, add_clamped_usize, clamp_u64, clamp_usize};
use crate::plugin::{CleanResult, SafetyLevel, ScannerCategory};
use crate::sorting::views;
use crate::time::Timestamp;
use vstd::prelude::*;

verus! {

/// The version that every document names.
pub open spec fn schema_version() -> Seq<char> {
    "1.0"@
}

/// One finding of a scan result.
#[derive(Debug)]
pub struct ScanItem {
    pub path: String,
    pub size_bytes: u64,
    pub modified: Timestamp,
    pub last_used: Option<Timestamp>,
    pub use_count: Option<u32>,
}

/// The findings of one scanner in a scan result.
#[derive(Debug)]
pub struct CategoryScanResult {
    pub id: String,
    pub name: String,
    pub description: String,
    pub size_bytes: u64,
    pub item_count: usize,
    pub items: Vec<ScanItem>,
}

/// The result of a scan.
#[derive(Debug)]
pub struct ScanResult {
    pub version: String,
    pub timestamp: Timestamp,
    pub categories: Vec<CategoryScanResult>,
    pub total_size_bytes: u64,
    pub total_item_count: usize,
    pub scan_duration_ms: u64,
}

/// One path of a plan.
#[derive(Debug)]
pub struct PlanItem {
    pub path: String,
    pub size_bytes: u64,
}

/// What a plan does with the findings of one scanner.
#[derive(Debug)]
pub struct CategoryPlanResult {
    pub id: String,
    pub action: String,
    pub items: Vec<PlanItem>,
}

/// A plan of a clean-up.
#[derive(Debug)]
pub struct PlanResult {
    pub version: String,
    pub timestamp: Timestamp,
    pub scan_file: Option<String>,
    pub categories: Vec<CategoryPlanResult>,
    pub total_size_bytes: u64,
    pub warnings: Vec<String>,
}

/// How an execution ended.
#[derive(Debug, Clone, Copy, PartialEq, Eq, Structural)]
pub enum ExecutionStatus {
    Success,
    Partial,
    Failed,
    Cancelled,
}

/// A path that could not be cleaned, with the error.
#[derive(Debug)]
pub struct FailedItem {
    pub path: String,
    pub error: String,
}

/// What an execution did with the findings of one scanner.
#[derive(Debug)]
pub struct CategoryExecutionResult {
    pub id: String,
    pub status: ExecutionStatus,
    pub deleted_count: usize,
    pub deleted_size_bytes: u64,
    pub failed_count: usize,
    pub failed_items: Vec<FailedItem>,
}

/// The result of an execution.
#[derive(Debug)]
pub struct ExecutionResult {
    pub version: String,
    pub timestamp: Timestamp,
    pub plan_file: Option<String>,
    pub status: ExecutionStatus,
    pub categories: Vec<CategoryExecutionResult>,
    pub total_deleted_size: u64,
    pub duration_ms: u64,
}

/// Sum of the sizes that the groups `categories` state.
pub open spec fn stated_size(categories: Seq<CategoryScanResult>) -> nat
    decreases categories.len(),
{
    if categories.len() == 0 {
        0
    } else {
        stated_size(categories.drop_last()) + categories.last().size_bytes as nat
    }
}

/// Sum of the item counts that the groups `categories` state.
pub open spec fn stated_items(categories: Seq<CategoryScanResult>) -> nat
    decreases categories.len(),
{
    if categories.len() == 0 {
        0
    } else {
        stated_items(categories.drop_last()) + categories.last().item_count as nat
    }
}

impl ScanResult {
    /// The scan result over `categories`, made at the time `now`; its totals
    /// are the sums of what the groups state.
    pub fn new(categories: Vec<CategoryScanResult>, duration_ms: u64, now: Timestamp) -> (r: Self)
        ensures
            r.version@ == schema_version(),
            r.timestamp == now,
            r.categories == categories,
            r.total_size_bytes == clamp_u64(stated_size(categories@)),
            r.total_item_count == clamp_usize(stated_items(categories@)),
            r.scan_duration_ms == duration_ms,
    {
        let mut size: u64 = 0;
        let mut count: usize = 0;
        let mut i: usize = 0;
        while i < categories.len()
            invariant
                i <= categories@.len(),
                size == clamp_u64(stated_size(categories@.take(i as int))),
                count == clamp_usize(stated_items(categories@.take(i as int))),
            decreases categories.len() - i,
        {
            assert(categories@.take(i + 1).drop_last() == categories@.take(i as int));
            size = add_clamped(size, categories[i].size_bytes);
            count = add_clamped_usize(count, categories[i].item_count);
            i += 1;
        }
        assert(categories@.take(categories@.len() as int) == categories@);
        ScanResult {
            version: String::from_str("1.0"),
            timestamp: now,
            categories,
            total_size_bytes: size,
            total_item_count: count,
            scan_duration_ms: duration_ms,
        }
    }
}

/// Sum of the sizes of `items`.
pub open spec fn plan_items_size(items: Seq<PlanItem>) -> nat
    decreases items.len(),
{
    if items.len() == 0 {
        0
    } else {
        plan_items_size(items.drop_last()) + items.last().size_bytes as nat
    }
}

/// Sum of the sizes of all items of `categories`.
pub open spec fn plan_size(categories: Seq<CategoryPlanResult>) -> nat
    decreases categories.len(),
{
    if categories.len() == 0 {
        0
    } else {
        plan_size(categories.drop_last()) + plan_items_size(categories.last().items@)
    }
}

fn items_size(items: &Vec<PlanItem>) -> (r: u64)
    ensures
        r == clamp_u64(plan_items_size(items@)),
{
    let mut size: u64 = 0;
    let mut i: usize = 0;
    while i < items.len()
        invariant
            i <= items@.len(),
            size == clamp_u64(plan_items_size(items@.take(i as int))),
        decreases items.len() - i,
    {
        assert(items@.take(i + 1).drop_last() == items@.take(i as int));
        size = add_clamped(size, items[i].size_bytes);
        i += 1;
    }
    assert(items@.take(items@.len() as int) == items@);
    size
}

impl PlanResult {
    /// The plan over `categories`, made at the time `now`; its total is the
    /// sum over all items.
    pub fn new(categories: Vec<CategoryPlanResult>, scan_file: Option<String>, now: Timestamp) -> (r:
        Self)
        ensures
            r.version@ == schema_version(),
            r.timestamp == now,
            r.scan_file == scan_file,
            r.categories == categories,
            r.total_size_bytes == clamp_u64(plan_size(categories@)),
            r.warnings@.len() == 0,
    {
        let mut size: u64 = 0;
        let mut i: usize = 0;
        while i < categories.len()
            invariant
                i <= categories@.len(),
                size == clamp_u64(plan_size(categories@.take(i as int))),
            decreases categories.len() - i,
        {
            assert(categories@.take(i + 1).drop_last() == categories@.take(i as int));
            size = add_clamped(size, items_size(&categories[i].items));
            i += 1;
        }
        assert(categories@.take(categories@.len() as int) == categories@);
        PlanResult {
            version: String::from_str("1.0"),
            timestamp: now,
            scan_file,
            categories,
            total_size_bytes: size,
            warnings: Vec::new(),
        }
    }
}

/// Sum of the bytes that the groups `categories` deleted.
pub open spec fn deleted_size(categories: Seq<CategoryExecutionResult>) -> nat
    decreases categories.len(),
{
    if categories.len() == 0 {
        0
    } else {
        deleted_size(categories.drop_last()) + categories.last().deleted_size_bytes as nat
    }
}

/// The status of an execution over `categories`: success if every group
/// succeeded, partial if some did, failed if none did.
pub open spec fn overall(categories: Seq<CategoryExecutionResult>) -> ExecutionStatus {
    if forall|i: int|
        0 <= i < categories.len() ==> (#[trigger] categories[i]).status == ExecutionStatus::Success {
        ExecutionStatus::Success
    } else if exists|i: int|
        0 <= i < categories.len() && (#[trigger] categories[i]).status == ExecutionStatus::Success {
        ExecutionStatus::Partial
    } else {
        ExecutionStatus::Failed
    }
}

impl ExecutionStatus {
    /// The status of a clean-up with `succeeded` successes and `failed`
    /// failures: success if nothing failed, partial if something succeeded,
    /// failed if nothing did.
    pub open spec fn summing(succeeded: usize, failed: usize) -> ExecutionStatus {
        if failed == 0 {
            ExecutionStatus::Success
        } else if succeeded > 0 {
            ExecutionStatus::Partial
        } else {
            ExecutionStatus::Failed
        }
    }

    /// The status of a clean-up that ended as `result`.
    pub fn of(result: &CleanResult) -> (r: ExecutionStatus)
        ensures
            r == Self::summing(result.success_count, result.failed_count),
    {
        if result.failed_count == 0 {
            ExecutionStatus::Success
        } else if result.success_count > 0 {
            ExecutionStatus::Partial
        } else {
            ExecutionStatus::Failed
        }
    }
}

impl ExecutionResult {
    /// The execution result over `categories`, made at the time `now`.
    pub fn new(
        plan_file: Option<String>,
        categories: Vec<CategoryExecutionResult>,
        duration_ms: u64,
        now: Timestamp,
    ) -> (r: Self)
        ensures
            r.version@ == schema_version(),
            r.timestamp == now,
            r.plan_file == plan_file,
            r.categories == categories,
            r.status == overall(categories@),
            r.total_deleted_size == clamp_u64(deleted_size(categories@)),
            r.duration_ms == duration_ms,
    {
        let mut size: u64 = 0;
        let mut all = true;
        let mut any = false;
        let mut i: usize = 0;
        while i < categories.len()
            invariant
                i <= categories@.len(),
                size == clamp_u64(deleted_size(categories@.take(i as int))),
                all == forall|k: int|
                    0 <= k < i ==> (#[trigger] categories@[k]).status == ExecutionStatus::Success,
                any == exists|k: int|
                    0 <= k < i && (#[trigger] categories@[k]).status == ExecutionStatus::Success,
            decreases categories.len() - i,
        {
            assert(categories@.take(i + 1).drop_last() == categories@.take(i as int));
            size = add_clamped(size, categories[i].deleted_size_bytes);
            match categories[i].status {
                ExecutionStatus::Success => {
                    any = true;
                },
                _ => {
                    all = false;
                },
            }
            i += 1;
        }
        assert(categories@.take(categories@.len() as int) == categories@);
        let status = if all {
            ExecutionStatus::Success
        } else if any {
            ExecutionStatus::Partial
        } else {
            ExecutionStatus::Failed
        };
        ExecutionResult {
            version: String::from_str("1.0"),
            timestamp: now,
            plan_file,
            status,
            categories,
            total_deleted_size: size,
            duration_ms,
        }
    }
}

/// The group of an execution result that sums up a clean-up which ended as
/// `result`.
pub fn execution_of(result: &CleanResult) -> (r: CategoryExecutionResult)
    ensures
        r.id@ == "all"@,
        r.status == ExecutionStatus::summing(result.success_count, result.failed_count),
        r.deleted_count == result.success_count,
        r.deleted_size_bytes == result.total_freed,
        r.failed_count == result.failed_count,
        r.failed_items@.map_values(|f: FailedItem| (f.path@, f.error@)) == failures(
            result.failed_items@,
        ),
{
    let mut failed_items: Vec<FailedItem> = Vec::new();
    let mut i: usize = 0;
    while i < result.failed_items.len()
        invariant
            i <= result.failed_items@.len(),
            failed_items@.len() == i,
            forall|k: int|
                0 <= k < i ==> (#[trigger] failed_items@[k]).path@ == result.failed_items@[k].0@
                    && failed_items@[k].error@ == result.failed_items@[k].1@,
        decreases result.failed_items.len() - i,
    {
        failed_items.push(
            FailedItem {
                path: result.failed_items[i].0.clone(),
                error: result.failed_items[i].1.clone(),
            },
        );
        i += 1;
    }
    assert(failed_items@.map_values(|f: FailedItem| (f.path@, f.error@)) =~= failures(
        result.failed_items@,
    ));
    CategoryExecutionResult {
        id: String::from_str("all"),
        status: ExecutionStatus::of(result),
        deleted_count: result.success_count,
        deleted_size_bytes: result.total_freed,
        failed_count: result.failed_count,
        failed_items,
    }
}

/// The finding that stands for the path `item` of a plan: it is identified
/// by its path, named after its file, one file, safe to delete.
pub open spec fn planned_finding(item: PlanItem) -> crate::plugin::ScanResultView {
    crate::plugin::ScanResultView {
        id: item.path@,
        name: match file_name_of(item.path@) {
            Some(n) => n,
            None => Seq::empty(),
        },
        path: item.path@,
        size: item.size_bytes,
        file_count: 1,
        dir_count: 0,
        last_accessed: None,
        last_modified: None,
        safety_level: SafetyLevel::Safe,
        category: ScannerCategory::System,
        metadata: Map::empty(),
    }
}

/// The findings that stand for the items `items`, in their order.
pub open spec fn planned(items: Seq<PlanItem>) -> Seq<crate::plugin::ScanResultView> {
    items.map_values(|i: PlanItem| planned_finding(i))
}

/// All items of `categories`, group after group.
pub open spec fn all_items(categories: Seq<CategoryPlanResult>) -> Seq<PlanItem>
    decreases categories.len(),
{
    if categories.len() == 0 {
        Seq::empty()
    } else {
        all_items(categories.drop_last()) + categories.last().items@
    }
}

/// The findings to clean that the plan `plan` names, group after group.
pub fn items_of_plan(plan: &PlanResult) -> (r: Vec<crate::plugin::ScanResult>)
    ensures
        views(r@) == planned(all_items(plan.categories@)),
{
    let mut out: Vec<crate::plugin::ScanResult> = Vec::new();
    let mut c: usize = 0;
    assert(views(out@) =~= planned(all_items(plan.categories@.take(0))));
    while c < plan.categories.len()
        invariant
            c <= plan.categories@.len(),
            views(out@) == planned(all_items(plan.categories@.take(c as int))),
        decreases plan.categories.len() - c,
    {
        let items = &plan.categories[c].items;
        let ghost head = all_items(plan.categories@.take(c as int));
        proof {
            assert(plan.categories@.take(c + 1).drop_last() == plan.categories@.take(c as int));
            assert(plan.categories@.take(c + 1).last().items@ == items@);
        }
        let mut i: usize = 0;
        assert(head + items@.take(0) =~= head);
        while i < items.len()
            invariant
                i <= items@.len(),
                views(out@) == planned(head + items@.take(i as int)),
            decreases items.len() - i,
        {
            let item = &items[i];
            let name = match file_name(item.path.as_str()) {
                Some(n) => n,
                None => String::new(),
            };
            let finding = crate::plugin::ScanResult::new(
                item.path.clone(),
                name,
                item.path.clone(),
            ).with_size(item.size_bytes).with_file_count(1);
            let ghost before = out@;
            out.push(finding);
            proof {
                assert(finding@ == planned_finding(*item));
                assert(head + items@.take(i + 1) =~= (head + items@.take(i as int)).push(*item));
                assert(views(out@) =~= views(before).push(finding@));
                assert(planned((head + items@.take(i as int)).push(*item)) =~= planned(
                    head + items@.take(i as int),
                ).push(planned_finding(*item)));
            }
            i += 1;
        }
        assert(items@.take(items@.len() as int) == items@);
        c += 1;
    }
    assert(plan.categories@.take(plan.categories@.len() as int) == plan.categories@);
    out
}

} // verus!
