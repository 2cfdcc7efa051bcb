use cleanx::mcp::server::{
    apply_command, default_depth, preview_output, scan_output, wants, warns, DiskUsage,
    MAX_CHILDREN, MAX_PREVIEW_ITEMS,
};
use cleanx::metadata::spotlight::FileMetadata;
use cleanx::output::documents::{
    findings_of, plan_of, plan_scan_document, scan_document, total_size_of, CategoryFilter,
};
use cleanx::output::json_schema::{execution_of, items_of_plan};
use cleanx::output::{
    CategoryExecutionResult, CategoryPlanResult, CategoryScanResult, ExecutionResult,
    ExecutionStatus, PlanItem, PlanResult, ScanResult,
};
use cleanx::plugin::{CleanResult, SafetyLevel, ScanReport, ScannerCategory};
use cleanx::time::Timestamp;

const NOW: Timestamp = Timestamp { secs: 1_700_000_000, nanos: 7 };

fn scanned(id: &str, size_bytes: u64, item_count: usize) -> CategoryScanResult {
    CategoryScanResult {
        id: id.to_string(),
        name: id.to_string(),
        description: String::new(),
        size_bytes,
        item_count,
        items: Vec::new(),
    }
}

fn executed(status: ExecutionStatus, deleted: u64) -> CategoryExecutionResult {
    CategoryExecutionResult {
        id: "x".to_string(),
        status,
        deleted_count: 0,
        deleted_size_bytes: deleted,
        failed_count: 0,
        failed_items: Vec::new(),
    }
}

fn outcome(success: usize, failed: usize) -> CleanResult {
    CleanResult {
        success_count: success,
        failed_count: failed,
        total_freed: 99,
        failed_items: (0..failed).map(|i| (format!("/p{}", i), format!("e{}", i))).collect(),
        duration_ms: 5,
    }
}

#[test]
fn scan_result_sums_its_groups() {
    let r = ScanResult::new(vec![scanned("a", 10, 2), scanned("b", 5, 1)], 77, NOW);
    assert_eq!(r.version, "1.0");
    assert_eq!(r.timestamp, NOW);
    assert_eq!(r.total_size_bytes, 15);
    assert_eq!(r.total_item_count, 3);
    assert_eq!(r.scan_duration_ms, 77);
    assert_eq!(r.categories.len(), 2);
    let empty = ScanResult::new(Vec::new(), 0, NOW);
    assert_eq!((empty.total_size_bytes, empty.total_item_count), (0, 0));
    let huge = ScanResult::new(vec![scanned("a", u64::MAX, usize::MAX), scanned("b", 1, 1)], 0, NOW);
    assert_eq!((huge.total_size_bytes, huge.total_item_count), (u64::MAX, usize::MAX));
}

#[test]
fn plan_sums_its_items() {
    let item = |p: &str, s: u64| PlanItem { path: p.to_string(), size_bytes: s };
    let plan = PlanResult::new(
        vec![
            CategoryPlanResult { id: "a".to_string(), action: "delete".to_string(), items: vec![item("/a/1", 1), item("/a/2", 2)] },
            CategoryPlanResult { id: "b".to_string(), action: "delete".to_string(), items: vec![] },
            CategoryPlanResult { id: "c".to_string(), action: "delete".to_string(), items: vec![item("/c/file.txt", 4)] },
        ],
        Some("scan.json".to_string()),
        NOW,
    );
    assert_eq!(plan.total_size_bytes, 7);
    assert_eq!(plan.scan_file.as_deref(), Some("scan.json"));
    assert!(plan.warnings.is_empty());
    assert_eq!(plan.version, "1.0");
    let items = items_of_plan(&plan);
    assert_eq!(items.len(), 3);
    assert_eq!(items[2].id, "/c/file.txt");
    assert_eq!(items[2].name, "file.txt");
    assert_eq!(items[2].path, "/c/file.txt");
    assert_eq!(items[2].size, 4);
    assert_eq!(items[2].file_count, 1);
    assert_eq!(items[2].safety_level, SafetyLevel::Safe);
    assert_eq!(items[2].category, ScannerCategory::System);
    assert!(items[2].metadata.is_empty());
    assert_eq!(items[0].path, "/a/1");
}

#[test]
fn status_of_an_execution() {
    let (success, partial, failed, cancelled) = (
        ExecutionStatus::Success,
        ExecutionStatus::Partial,
        ExecutionStatus::Failed,
        ExecutionStatus::Cancelled,
    );
    let status = |parts: &[ExecutionStatus]| {
        ExecutionResult::new(None, parts.iter().map(|s| executed(*s, 1)).collect(), 0, NOW).status
    };
    assert_eq!(status(&[success, success]), success);
    assert_eq!(status(&[]), success);
    assert_eq!(status(&[success, failed]), partial);
    assert_eq!(status(&[partial, success]), partial);
    assert_eq!(status(&[failed, failed]), failed);
    assert_eq!(status(&[partial]), failed);
    assert_eq!(status(&[cancelled]), failed);
    let r = ExecutionResult::new(Some("plan.json".to_string()), vec![executed(success, 5), executed(failed, 7)], 3, NOW);
    assert_eq!(r.total_deleted_size, 12);
    assert_eq!(r.duration_ms, 3);
    assert_eq!(r.plan_file.as_deref(), Some("plan.json"));
}

#[test]
fn status_of_a_clean_up() {
    assert_eq!(ExecutionStatus::of(&outcome(3, 0)), ExecutionStatus::Success);
    assert_eq!(ExecutionStatus::of(&outcome(0, 0)), ExecutionStatus::Success);
    assert_eq!(ExecutionStatus::of(&outcome(2, 1)), ExecutionStatus::Partial);
    assert_eq!(ExecutionStatus::of(&outcome(0, 4)), ExecutionStatus::Failed);
    let e = execution_of(&outcome(2, 2));
    assert_eq!(e.id, "all");
    assert_eq!(e.status, ExecutionStatus::Partial);
    assert_eq!((e.deleted_count, e.failed_count, e.deleted_size_bytes), (2, 2, 99));
    assert_eq!(e.failed_items.len(), 2);
    assert_eq!((e.failed_items[1].path.as_str(), e.failed_items[1].error.as_str()), ("/p1", "e1"));
}

#[test]
fn categories_that_a_filter_asks_for() {
    let named = |c: &str, id: &str| CategoryFilter::named(c).admits(id);
    assert!(named("all", "system_caches"));
    assert!(named("cache", "system_caches"));
    assert!(named("CACHE", "browser_cache"));
    assert!(named("", "trash"));
    assert!(!named("logs", "system_caches"));
    assert!(!named("ALL", "system_caches"));
    let optional = |c: Option<&str>, id: &str| CategoryFilter::optional(c).admits(id);
    assert!(optional(None, "system_caches"));
    assert!(optional(Some("cache"), "system_caches"));
    assert!(!optional(Some("all"), "system_caches"));
    assert!(optional(Some("all"), "install_all"));
    let wanted = vec!["Trash".to_string(), "dev".to_string()];
    assert!(wants(&wanted, "trash"));
    assert!(wants(&wanted, "dev_junk"));
    assert!(!wants(&wanted, "system_logs"));
    assert!(!wants(&Vec::new(), "trash"));
    assert!(warns("browser_cache"));
    assert!(!warns("system_caches"));
}

#[test]
fn answer_to_a_scan() {
    let group = |id: &str, sizes: &[u64]| cleanx::plugin::CategoryScanResult {
        scanner_id: id.to_string(),
        name: id.to_uppercase(),
        category: ScannerCategory::System,
        icon: String::new(),
        items: sizes
            .iter()
            .map(|s| cleanx::plugin::ScanResult::new("i".to_string(), "i".to_string(), "/i".to_string()).with_size(*s))
            .collect(),
    };
    let report = ScanReport::from_categories(
        vec![group("system_caches", &[1, 2]), group("trash", &[4]), group("browser_cache", &[8, 16, 32])],
        0,
    );
    let all = scan_output(&report, &Vec::new());
    assert_eq!(all.categories.len(), 3);
    assert_eq!((all.total_size_bytes, all.total_items), (63, 6));
    assert_eq!(all.cli_command, "cleanmac scan --format json");
    let some = scan_output(&report, &vec!["CACHE".to_string()]);
    let ids: Vec<&str> = some.categories.iter().map(|c| c.id.as_str()).collect();
    assert_eq!(ids, vec!["system_caches", "browser_cache"]);
    assert_eq!(some.categories[1].name, "BROWSER_CACHE");
    assert_eq!((some.categories[1].size_bytes, some.categories[1].item_count), (56, 3));
    assert_eq!((some.total_size_bytes, some.total_items), (59, 5));
    let none = scan_output(&report, &vec!["nothing".to_string()]);
    assert!(none.categories.is_empty());
    assert_eq!((none.total_size_bytes, none.total_items), (0, 0));
}

#[test]
fn usage_under_a_directory() {
    let mut usage = DiskUsage::new();
    usage.add("src", 10);
    usage.add("target", 500);
    usage.add("src", 5);
    usage.add("README.md", 15);
    usage.add("docs", 15);
    let (total, children) = usage.finish();
    assert_eq!(total, 545);
    let listed: Vec<(&str, u64)> = children.iter().map(|c| (c.name.as_str(), c.size_bytes)).collect();
    assert_eq!(listed, vec![("target", 500), ("src", 15), ("README.md", 15), ("docs", 15)]);
    let mut many = DiskUsage::new();
    for i in 0..30u64 {
        many.add(&format!("c{}", i), i);
    }
    let (total, children) = many.finish();
    assert_eq!(total, 435);
    assert_eq!(children.len(), MAX_CHILDREN);
    assert_eq!(children[0].name, "c29");
    assert_eq!(children[19].name, "c10");
    let (total, children) = DiskUsage::new().finish();
    assert_eq!((total, children.len()), (0, 0));
    assert_eq!(default_depth(), 2);
    assert_eq!(MAX_PREVIEW_ITEMS, 100);
}

#[test]
fn command_that_carries_out_a_preview() {
    assert_eq!(
        apply_command(&vec!["caches".to_string(), "trash".to_string()]),
        "cleanmac apply --category caches,trash --yes"
    );
    assert_eq!(apply_command(&Vec::new()), "cleanmac apply --category  --yes");
}

fn found(path: &str, size: u64, modified: Option<i64>) -> cleanx::plugin::ScanResult {
    cleanx::plugin::ScanResult::new(path.to_string(), path.to_string(), path.to_string())
        .with_size(size)
        .with_last_modified(modified.map(|secs| Timestamp { secs, nanos: 0 }))
}

fn three_groups() -> ScanReport {
    let group = |id: &str, items: Vec<cleanx::plugin::ScanResult>| cleanx::plugin::CategoryScanResult {
        scanner_id: id.to_string(),
        name: id.to_uppercase(),
        category: ScannerCategory::System,
        icon: String::new(),
        items,
    };
    ScanReport::from_categories(
        vec![
            group("system_caches", vec![found("/c/a", 1, Some(100)), found("/c/b", 2, None)]),
            group("trash", vec![found("/t", 4, None)]),
            group("browser_cache", vec![found("/b", 8, Some(300))]),
        ],
        77,
    )
}

#[test]
fn scan_document_takes_the_groups_asked_for() {
    let report = three_groups();
    let now = Timestamp { secs: 1000, nanos: 5 };
    let used = FileMetadata { last_used: Some(Timestamp { secs: 50, nanos: 0 }), use_count: Some(3) };
    let metadata = vec![vec![None, Some(used)], vec![], vec![Some(used)]];
    let doc = scan_document(&report, &CategoryFilter::named("cache"), &metadata, 12, now);
    assert_eq!(doc.version, "1.0");
    assert_eq!(doc.timestamp, now);
    assert_eq!(doc.scan_duration_ms, 12);
    assert_eq!((doc.total_size_bytes, doc.total_item_count), (11, 3));
    let ids: Vec<&str> = doc.categories.iter().map(|c| c.id.as_str()).collect();
    assert_eq!(ids, vec!["system_caches", "browser_cache"]);
    let first = &doc.categories[0];
    assert_eq!(first.name, "SYSTEM_CACHES");
    assert_eq!(first.description, "");
    assert_eq!((first.size_bytes, first.item_count), (3, 2));
    assert_eq!(first.items[0].path, "/c/a");
    assert_eq!(first.items[0].modified, Timestamp { secs: 100, nanos: 0 });
    assert_eq!((first.items[0].last_used, first.items[0].use_count), (None, None));
    assert_eq!(first.items[1].modified, now);
    assert_eq!(first.items[1].last_used, Some(Timestamp { secs: 50, nanos: 0 }));
    assert_eq!(first.items[1].use_count, Some(3));
    // the metadata belong to the group of the report, not of the document
    assert_eq!(doc.categories[1].items[0].use_count, Some(3));
    let all = scan_document(&report, &CategoryFilter::named("all"), &Vec::new(), 0, now);
    assert_eq!(all.categories.len(), 3);
    assert_eq!((all.total_size_bytes, all.total_item_count), (15, 4));
    assert_eq!(all.categories[2].items[0].use_count, None);
}

#[test]
fn plan_follows_from_a_scan_result() {
    let report = three_groups();
    let now = Timestamp { secs: 2000, nanos: 0 };
    let scanned = plan_scan_document(&report, &CategoryFilter::optional(Some("TRASH")), now);
    assert_eq!(scanned.scan_duration_ms, 77);
    assert_eq!(scanned.categories.len(), 1);
    assert_eq!(scanned.categories[0].items[0].modified, now);
    let everything = plan_scan_document(&report, &CategoryFilter::optional(None), now);
    // known modification times are not taken over on the way to a plan
    assert_eq!(everything.categories[0].items[0].modified, now);
    let plan = plan_of(&everything, Some("scan.json".to_string()), now);
    assert_eq!(plan.version, "1.0");
    assert_eq!(plan.scan_file.as_deref(), Some("scan.json"));
    assert_eq!(plan.total_size_bytes, 15);
    assert!(plan.warnings.is_empty());
    assert_eq!(plan.categories.len(), 3);
    assert_eq!(plan.categories[0].id, "system_caches");
    assert_eq!(plan.categories[0].action, "delete");
    let paths: Vec<(&str, u64)> =
        plan.categories[0].items.iter().map(|i| (i.path.as_str(), i.size_bytes)).collect();
    assert_eq!(paths, vec![("/c/a", 1), ("/c/b", 2)]);
}

#[test]
fn findings_that_a_clean_up_takes() {
    let report = three_groups();
    let paths = |filter: CategoryFilter| -> Vec<String> {
        findings_of(&report, &filter).iter().map(|i| i.path.clone()).collect()
    };
    assert_eq!(paths(CategoryFilter::named("all")), vec!["/c/a", "/c/b", "/t", "/b"]);
    assert_eq!(paths(CategoryFilter::named("cache")), vec!["/c/a", "/c/b", "/b"]);
    assert_eq!(paths(CategoryFilter::optional(Some("all"))), Vec::<String>::new());
    assert_eq!(total_size_of(&findings_of(&report, &CategoryFilter::named("cache"))), 11);
    assert_eq!(total_size_of(&vec![found("/x", u64::MAX, None), found("/y", 1, None)]), u64::MAX);
}

#[test]
fn preview_of_a_clean_up() {
    let report = three_groups();
    let used = FileMetadata { last_used: Some(Timestamp { secs: 0, nanos: 0 }), use_count: None };
    let metadata = vec![vec![Some(used)], vec![], vec![Some(used)]];
    let wanted = vec!["Trash".to_string(), "browser".to_string()];
    let preview = preview_output(&report, &wanted, &metadata);
    let paths: Vec<&str> = preview.items.iter().map(|i| i.path.as_str()).collect();
    assert_eq!(paths, vec!["/t", "/b"]);
    assert_eq!(preview.items[0].last_used, None);
    assert_eq!(preview.items[1].last_used.as_deref(), Some("1970-01-01T00:00:00+00:00"));
    assert_eq!(preview.total_size_bytes, 12);
    assert_eq!(preview.cli_command, "cleanmac apply --category Trash,browser --yes");
    assert_eq!(preview.warnings, vec!["Browser cache deletion may require re-login to websites"]);
    let caches = preview_output(&report, &vec!["system".to_string()], &Vec::new());
    assert_eq!(caches.items.len(), 2);
    assert_eq!(caches.total_size_bytes, 3);
    assert!(caches.warnings.is_empty());
    let nothing = preview_output(&report, &Vec::new(), &metadata);
    assert!(nothing.items.is_empty());
    assert_eq!(nothing.total_size_bytes, 0);
    assert_eq!(nothing.cli_command, "cleanmac apply --category  --yes");
}

#[test]
fn preview_lists_the_first_hundred_and_counts_all() {
    let items: Vec<cleanx::plugin::ScanResult> =
        (0..150).map(|i| found(&format!("/c/{}", i), 2, None)).collect();
    let report = ScanReport::from_categories(
        vec![cleanx::plugin::CategoryScanResult {
            scanner_id: "system_caches".to_string(),
            name: "System Caches".to_string(),
            category: ScannerCategory::System,
            icon: String::new(),
            items,
        }],
        0,
    );
    let preview = preview_output(&report, &vec!["cache".to_string()], &Vec::new());
    assert_eq!(preview.items.len(), MAX_PREVIEW_ITEMS);
    assert_eq!(preview.items[99].path, "/c/99");
    assert_eq!(preview.total_size_bytes, 300);
}
