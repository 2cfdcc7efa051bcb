use cleanx::plugin::{CategoryScanResult, ScanReport, ScanResult, ScannerCategory};

fn finding(id: &str, size: u64) -> ScanResult {
    ScanResult::new(id.to_string(), id.to_string(), format!("/tmp/{}", id)).with_size(size)
}

fn group(scanner_id: &str, name: &str, sizes: &[u64]) -> CategoryScanResult {
    let mut items = Vec::new();
    for (i, size) in sizes.iter().enumerate() {
        items.push(finding(&format!("{}_{}", scanner_id, i), *size));
    }
    CategoryScanResult {
        scanner_id: scanner_id.to_string(),
        name: name.to_string(),
        category: ScannerCategory::System,
        icon: String::new(),
        items,
    }
}

fn sum_over_groups(report: &ScanReport) -> (u64, usize) {
    let mut size = 0u64;
    let mut count = 0usize;
    for c in report.categories() {
        size += c.total_size();
        count += c.items.len();
    }
    (size, count)
}

#[test]
fn new_report_is_empty() {
    let report = ScanReport::new();
    assert!(report.is_empty());
    assert_eq!(report.total_size(), 0);
    assert_eq!(report.total_items(), 0);
    assert_eq!(report.duration_ms(), 0);
    assert!(report.categories().is_empty());
}

#[test]
fn totals_are_the_sums_over_the_groups() {
    let report = ScanReport::from_categories(
        vec![group("a", "A", &[10, 20]), group("b", "B", &[]), group("c", "C", &[5])],
        42,
    );
    assert_eq!(report.total_size(), 35);
    assert_eq!(report.total_items(), 3);
    assert_eq!(report.duration_ms(), 42);
    assert_eq!(sum_over_groups(&report), (35, 3));
    assert!(!report.is_empty());
}

#[test]
fn totals_follow_every_change() {
    let mut report = ScanReport::new();
    assert!(report.add_item("caches", finding("x", 100)));
    assert_eq!(sum_over_groups(&report), (report.total_size(), report.total_items()));
    assert!(!report.add_item("caches", finding("y", 50)));
    assert!(report.add_item("logs", finding("z", 7)));
    assert_eq!((report.total_size(), report.total_items()), (157, 3));
    assert_eq!(sum_over_groups(&report), (157, 3));
    report.finish_scanner("caches", "System Caches".to_string(), ScannerCategory::System);
    assert_eq!((report.total_size(), report.total_items()), (157, 3));
    report.remove_categories(&vec!["caches".to_string()]);
    assert_eq!((report.total_size(), report.total_items()), (7, 1));
    assert_eq!(sum_over_groups(&report), (7, 1));
}

#[test]
fn totals_stop_at_the_largest_number() {
    let report = ScanReport::from_categories(vec![group("a", "A", &[u64::MAX, 5])], 0);
    assert_eq!(report.total_size(), u64::MAX);
    assert_eq!(report.total_items(), 2);
    assert_eq!(report.categories()[0].total_size(), u64::MAX);
}

#[test]
fn rescan_leaves_other_categories_as_they_were() {
    let mut report = ScanReport::from_categories(
        vec![
            group("system_caches", "System Caches", &[10, 20]),
            group("trash", "Trash", &[3]),
            group("dev_junk", "Development Junk", &[8, 9, 1]),
        ],
        5,
    );
    report.remove_categories(&vec!["trash".to_string(), "unknown".to_string()]);
    let groups = report.categories();
    assert_eq!(groups.len(), 2);
    assert_eq!(groups[0].scanner_id, "system_caches");
    assert_eq!(groups[0].name, "System Caches");
    assert_eq!(groups[0].items.len(), 2);
    assert_eq!(groups[0].items[0].id, "system_caches_0");
    assert_eq!(groups[0].items[0].size, 10);
    assert_eq!(groups[0].items[1].id, "system_caches_1");
    assert_eq!(groups[0].items[1].size, 20);
    assert_eq!(groups[1].scanner_id, "dev_junk");
    assert_eq!(groups[1].items.len(), 3);
    assert_eq!(groups[1].items[2].path, "/tmp/dev_junk_2");
    assert_eq!(report.total_size(), 48);
    assert_eq!(report.total_items(), 5);
    assert_eq!(report.duration_ms(), 5);
}

#[test]
fn rescan_of_nothing_changes_nothing() {
    let mut report = ScanReport::from_categories(vec![group("a", "A", &[1])], 0);
    report.remove_categories(&Vec::new());
    assert_eq!(report.categories().len(), 1);
    assert_eq!(report.total_size(), 1);
}

#[test]
fn first_item_of_a_scanner_makes_a_group_named_after_it() {
    let mut report = ScanReport::new();
    let added = report.add_item("privacy", finding("p", 4));
    assert!(added);
    let g = &report.categories()[0];
    assert_eq!(g.scanner_id, "privacy");
    assert_eq!(g.name, "privacy");
    assert_eq!(g.icon, "");
    assert_eq!(g.category, ScannerCategory::System);
    assert_eq!(g.items.len(), 1);
    assert_eq!(g.items[0].id, "p");
}

#[test]
fn items_go_to_the_first_group_of_their_scanner() {
    let mut report = ScanReport::from_categories(
        vec![group("a", "A", &[1]), group("b", "B", &[2]), group("a", "A again", &[3])],
        0,
    );
    assert!(!report.add_item("a", finding("new", 10)));
    let groups = report.categories();
    assert_eq!(groups[0].items.len(), 2);
    assert_eq!(groups[0].items[1].id, "new");
    assert_eq!(groups[1].items.len(), 1);
    assert_eq!(groups[2].items.len(), 1);
    assert_eq!(report.total_size(), 16);
}

#[test]
fn finished_scanner_gets_its_name_and_category() {
    let mut report = ScanReport::new();
    report.add_item("browser_cache", finding("b", 1));
    report.finish_scanner("browser_cache", "Browser Caches".to_string(), ScannerCategory::Browser);
    let g = &report.categories()[0];
    assert_eq!(g.name, "Browser Caches");
    assert_eq!(g.category, ScannerCategory::Browser);
    assert_eq!(g.items.len(), 1);
    report.finish_scanner("absent", "Absent".to_string(), ScannerCategory::Trash);
    assert_eq!(report.categories().len(), 1);
    assert_eq!(report.categories()[0].name, "Browser Caches");
}

#[test]
fn report_without_findings_is_empty() {
    let report = ScanReport::from_categories(vec![group("a", "A", &[])], 0);
    assert!(report.is_empty());
}

#[test]
fn group_counts_its_files() {
    let mut g = group("a", "A", &[1, 2]);
    g.items[0] = finding("x", 1).with_file_count(4);
    g.items[1] = finding("y", 2).with_file_count(6);
    assert_eq!(g.total_files(), 10);
    assert_eq!(g.total_size(), 3);
}

#[test]
fn category_names() {
    assert_eq!(ScannerCategory::System.to_string(), "System");
    assert_eq!(ScannerCategory::Browser.to_string(), "Browser");
    assert_eq!(ScannerCategory::Development.to_string(), "Development");
    assert_eq!(ScannerCategory::Apps.to_string(), "Apps");
    assert_eq!(ScannerCategory::Trash.to_string(), "Trash");
}
