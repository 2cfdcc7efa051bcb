use cleanx::cleaner::{Cleaner, DefaultCleaner, StepOutcome};
use cleanx::plugin::{
    CleanConfig, PluginRegistry, SafetyLevel, ScanReport, ScanResult, ScannerCategory,
};
use cleanx::scanner::{
    BrowserCacheScanner, CacheScanner, DevJunkScanner, LogScanner, Scanner, TrashScanner,
};
use cleanx::tui::service::scanner::{
    done_message, item_message, poll_scan_messages, started_message, ScannerKind,
};
use cleanx::tui::state::{ListState, ScanMessage, ScanProgress};

fn sized(id: &str, size: u64) -> ScanResult {
    ScanResult::new(id.to_string(), id.to_string(), format!("/tmp/{}", id)).with_size(size)
}

fn sent_by(scanner: &str, id: &str, size: u64) -> ScanResult {
    sized(id, size).with_meta("scanner_id", scanner.to_string())
}

#[test]
fn default_registry_holds_the_five_basic_scanners() {
    let registry = PluginRegistry::default();
    assert_eq!(
        registry.scanners().clone(),
        vec![
            ScannerKind::SystemCaches,
            ScannerKind::SystemLogs,
            ScannerKind::Trash,
            ScannerKind::BrowserCaches,
            ScannerKind::DevJunk,
        ]
    );
    assert!(PluginRegistry::new().scanners().is_empty());
}

#[test]
fn kinds_name_their_scanners() {
    let caches = CacheScanner::with_home("/Users/u");
    let logs = LogScanner::with_home("/Users/u");
    let trash = TrashScanner::with_home("/Users/u");
    let browser = BrowserCacheScanner::with_home("/Users/u");
    let dev = DevJunkScanner::with_home("/Users/u");
    let pairs: Vec<(ScannerKind, &str, &str, ScannerCategory)> = vec![
        (ScannerKind::SystemCaches, caches.id(), caches.name(), caches.category()),
        (ScannerKind::SystemLogs, logs.id(), logs.name(), logs.category()),
        (ScannerKind::Trash, trash.id(), trash.name(), trash.category()),
        (ScannerKind::BrowserCaches, browser.id(), browser.name(), browser.category()),
        (ScannerKind::DevJunk, dev.id(), dev.name(), dev.category()),
    ];
    for (kind, id, name, category) in pairs {
        assert_eq!(kind.scanner_id(), id);
        assert_eq!(kind.name(), name);
        assert_eq!(kind.category(), category);
    }
    assert_eq!(ScannerKind::BrowserCaches.id(), "browser_caches");
    assert_eq!(ScannerKind::BrowserCaches.scanner_id(), "browser_cache");
    assert_eq!(ScannerKind::MusicJunk.name(), "Music & Podcasts");
}

#[test]
fn scan_all_groups_what_each_scanner_found() {
    let registry = PluginRegistry::default();
    let found = vec![
        Some(vec![sized("a", 10), sized("b", 20)]),
        None,
        Some(vec![]),
        Some(vec![sized("c", 5)]),
    ];
    let report: ScanReport = registry.scan_all(found, 42);
    let groups = report.categories();
    assert_eq!(groups.len(), 3);
    assert_eq!(groups[0].scanner_id, "system_caches");
    assert_eq!(groups[0].name, "System Caches");
    assert_eq!(groups[0].items.len(), 2);
    assert_eq!(groups[1].scanner_id, "trash");
    assert_eq!(groups[1].category, ScannerCategory::Trash);
    assert!(groups[1].items.is_empty());
    assert_eq!(groups[2].scanner_id, "browser_cache");
    assert_eq!(groups[2].category, ScannerCategory::Browser);
    assert_eq!(groups[2].icon, "");
    assert_eq!(report.total_size(), 35);
    assert_eq!(report.total_items(), 3);
    assert_eq!(report.duration_ms(), 42);
    assert!(!report.is_empty());
}

#[test]
fn scan_all_without_scanners_is_empty() {
    let report = PluginRegistry::new().scan_all(vec![Some(vec![sized("a", 10)])], 0);
    assert!(report.is_empty());
    assert_eq!((report.total_size(), report.total_items()), (0, 0));
}

#[test]
fn registry_cleans_with_its_first_cleaner() {
    let items = vec![sized("a", 10), sized("b", 20).with_safety(SafetyLevel::Protected)];
    let config = CleanConfig { dry_run: false, log_history: false };
    let mut registry = PluginRegistry::new();
    let nothing = registry.clean(&items, &config, vec![StepOutcome::Done, StepOutcome::Done]);
    assert_eq!((nothing.success_count, nothing.failed_count, nothing.total_freed), (0, 0, 0));
    registry.register_cleaner(DefaultCleaner::new());
    let result = registry.clean(&items, &config, vec![StepOutcome::Done, StepOutcome::Done]);
    assert_eq!((result.success_count, result.failed_count, result.total_freed), (1, 1, 10));
    assert_eq!(result.failed_items[0].1, "Not safe to delete");
}

#[test]
fn cleaner_trait_agrees_with_the_default_cleaner() {
    let cleaner = DefaultCleaner::new();
    let safe = sized("a", 10);
    let protected = sized("b", 20).with_safety(SafetyLevel::Protected);
    assert!(Cleaner::can_clean(&cleaner, &safe));
    assert!(!Cleaner::can_clean(&cleaner, &protected));
    let config = CleanConfig { dry_run: true, log_history: false };
    let result = Cleaner::clean(&cleaner, &vec![safe], &config, vec![StepOutcome::Done]);
    assert_eq!((result.success_count, result.total_freed), (1, 0));
}

#[test]
fn a_job_sends_start_findings_and_end() {
    let kind = ScannerKind::BrowserCaches;
    match started_message(kind) {
        ScanMessage::ScannerStart { name } => assert_eq!(name, "Browser Caches"),
        other => panic!("unexpected message {:?}", other),
    }
    match item_message(sent_by("browser_cache", "x", 7)) {
        ScanMessage::ItemFound { scanner_id, item } => {
            assert_eq!(scanner_id, "browser_cache");
            assert_eq!(item.size, 7);
        }
        other => panic!("unexpected message {:?}", other),
    }
    match item_message(sized("y", 1)) {
        ScanMessage::ItemFound { scanner_id, .. } => assert_eq!(scanner_id, ""),
        other => panic!("unexpected message {:?}", other),
    }
    match done_message(kind) {
        ScanMessage::ScannerDone { scanner_id, name, category } => {
            assert_eq!(scanner_id, "browser_cache");
            assert_eq!(name, "Browser Caches");
            assert_eq!(category, ScannerCategory::Browser);
        }
        other => panic!("unexpected message {:?}", other),
    }
}

#[test]
fn the_messages_of_a_job_book_its_findings() {
    let kind = ScannerKind::DevJunk;
    let mut report = Some(ScanReport::new());
    let mut progress = ScanProgress::default();
    let mut list = ListState::default();
    let messages = vec![
        started_message(kind),
        item_message(sent_by("dev_junk", "a", 100)),
        item_message(sent_by("dev_junk", "b", 50)),
        done_message(kind),
    ];
    assert!(!poll_scan_messages(&mut report, &mut progress, &mut list, messages));
    let report = report.unwrap();
    assert_eq!(report.categories().len(), 1);
    let group = &report.categories()[0];
    assert_eq!(group.scanner_id, "dev_junk");
    assert_eq!(group.name, "Development Junk");
    assert_eq!(group.category, ScannerCategory::Development);
    let names: Vec<&str> = group.items.iter().map(|i| i.id.as_str()).collect();
    assert_eq!(names, vec!["a", "b"]);
    assert_eq!((report.total_size(), report.total_items()), (150, 2));
    assert_eq!(progress.scanners_done, 1);
    assert_eq!(progress.active_scanners, 0);
    assert_eq!(progress.current_scanner, "Development Junk");
    assert_eq!(list.selected(), Some(0));
}
