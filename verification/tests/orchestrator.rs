use cleanx::config::Config;
use cleanx::plugin::{CategoryScanResult, ScanReport, ScanResult, ScannerCategory};
use cleanx::tui::service::scanner::{
    all_finished, apply_message, poll_scan_messages, start_scan, ScannerKind, DEFAULT_POOL_SIZE,
};
use cleanx::tui::state::app_state::{available_scanners, enabled_scanner_ids};
use cleanx::tui::state::{App, AppMode, ListState, ScanMessage, ScanProgress, SortMode};

fn finding(id: &str, size: u64) -> ScanResult {
    ScanResult::new(id.to_string(), id.to_string(), format!("/tmp/{}", id)).with_size(size)
}

fn group(id: &str, sizes: &[u64]) -> CategoryScanResult {
    CategoryScanResult {
        scanner_id: id.to_string(),
        name: id.to_string(),
        category: ScannerCategory::System,
        icon: String::new(),
        items: sizes.iter().map(|s| finding(&format!("{}{}", id, s), *s)).collect(),
    }
}

fn ids(v: &[&str]) -> Vec<String> {
    v.iter().map(|s| s.to_string()).collect()
}

fn found(scanner_id: &str, id: &str, size: u64) -> ScanMessage {
    ScanMessage::ItemFound { scanner_id: scanner_id.to_string(), item: finding(id, size) }
}

#[test]
fn first_scan_begins_an_empty_report() {
    let config = Config::default();
    let mut report = None;
    let mut progress = ScanProgress::default();
    let mut mode = AppMode::CategorySelect;
    let session = start_scan(
        &config,
        &ids(&["trash", "duplicates", "system_caches", "no_such_scanner"]),
        &mut report,
        &mut progress,
        &mut mode,
    )
    .unwrap();
    // in the order of submission, not of the request
    assert_eq!(
        session.scanners,
        vec![ScannerKind::SystemCaches, ScannerKind::Trash, ScannerKind::Duplicates]
    );
    assert_eq!(session.config.min_size, 1_048_576);
    assert_eq!(session.config.max_depth, 3);
    let report = report.unwrap();
    assert!(report.categories().is_empty());
    assert_eq!((report.total_size(), report.total_items()), (0, 0));
    assert_eq!(progress.current_scanner, "Initializing...");
    assert_eq!(progress.current_path, None);
    assert_eq!(progress.scanners_done, 0);
    assert_eq!(progress.total_scanners, 4);
    assert_eq!(progress.active_scanners, 0);
    assert_eq!(mode, AppMode::Review);
}

#[test]
fn rescan_replaces_only_the_categories_that_are_scanned() {
    let config = Config::default();
    let mut report = Some(ScanReport::from_categories(
        vec![group("system_caches", &[1, 2]), group("trash", &[4]), group("dev_junk", &[8])],
        9,
    ));
    let mut progress = ScanProgress::default();
    let mut mode = AppMode::Review;
    let session =
        start_scan(&config, &ids(&["trash"]), &mut report, &mut progress, &mut mode).unwrap();
    assert_eq!(session.scanners, vec![ScannerKind::Trash]);
    let report = report.unwrap();
    let left: Vec<&str> = report.categories().iter().map(|c| c.scanner_id.as_str()).collect();
    assert_eq!(left, vec!["system_caches", "dev_junk"]);
    assert_eq!(report.categories()[0].items.len(), 2);
    assert_eq!(report.categories()[0].items[1].id, "system_caches2");
    assert_eq!((report.total_size(), report.total_items()), (11, 3));
    assert_eq!(report.duration_ms(), 9);
    assert_eq!(progress.total_scanners, 1);
}

#[test]
fn no_scan_without_scanners() {
    let config = Config::default();
    let mut report = Some(ScanReport::from_categories(vec![group("trash", &[4])], 0));
    let mut progress = ScanProgress::default();
    progress.scanners_done = 3;
    let mut mode = AppMode::Help;
    assert!(start_scan(&config, &Vec::new(), &mut report, &mut progress, &mut mode).is_none());
    assert_eq!(report.unwrap().total_size(), 4);
    assert_eq!(progress.scanners_done, 3);
    assert_eq!(mode, AppMode::Help);
}

#[test]
fn scanners_of_a_session() {
    let all = ScannerKind::all();
    assert_eq!(all.len(), 13);
    assert_eq!(all[3].id(), "browser_caches");
    assert_eq!(all[3].category(), ScannerCategory::Browser);
    assert_eq!(ScannerKind::Trash.category(), ScannerCategory::Trash);
    assert_eq!(ScannerKind::DevJunk.category(), ScannerCategory::Development);
    assert_eq!(ScannerKind::Privacy.category(), ScannerCategory::Browser);
    assert_eq!(ScannerKind::Maintenance.category(), ScannerCategory::System);
    let offered = available_scanners();
    assert_eq!(offered.len(), 13);
    for (kind, info) in all.iter().zip(offered.iter()) {
        assert_eq!(kind.id(), info.id);
    }
    assert_eq!(offered[8].name, "Music & Podcasts");
    assert_eq!(enabled_scanner_ids(&offered).len(), 9);
    assert!(!enabled_scanner_ids(&offered).contains(&"duplicates".to_string()));
    assert_eq!(DEFAULT_POOL_SIZE, 4);
}

#[test]
fn session_is_over_when_every_scanner_has_finished() {
    assert!(!all_finished(0, 3));
    assert!(!all_finished(2, 3));
    assert!(all_finished(3, 3));
    assert!(all_finished(4, 3));
    assert!(all_finished(0, 0));
}

#[test]
fn messages_build_the_report_as_they_come() {
    let mut report = Some(ScanReport::new());
    let mut progress = ScanProgress::default();
    progress.total_scanners = 2;
    let mut list = ListState::new();
    let complete = poll_scan_messages(
        &mut report,
        &mut progress,
        &mut list,
        vec![
            ScanMessage::ScannerStart { name: "Trash".to_string() },
            ScanMessage::ScannerStart { name: "System Caches".to_string() },
            ScanMessage::ScanningPath { path: "/Users/u/.Trash".to_string() },
            found("trash", "trash_main", 50),
            found("system_caches", "cache_0", 10),
            found("system_caches", "cache_1", 30),
        ],
    );
    assert!(!complete);
    assert_eq!(progress.current_scanner, "System Caches");
    assert_eq!(progress.active_scanners, 2);
    assert_eq!(progress.scanners_done, 0);
    assert_eq!(progress.current_path.as_deref(), Some("/Users/u/.Trash"));
    assert_eq!(list.selected(), Some(0));
    {
        let r = report.as_ref().unwrap();
        assert_eq!(r.categories().len(), 2);
        assert_eq!(r.categories()[0].scanner_id, "trash");
        assert_eq!(r.categories()[1].items.len(), 2);
        assert_eq!((r.total_size(), r.total_items()), (90, 3));
    }
    list.select(Some(5));
    let complete = poll_scan_messages(
        &mut report,
        &mut progress,
        &mut list,
        vec![
            ScanMessage::ScannerDone {
                scanner_id: "trash".to_string(),
                name: "Trash".to_string(),
                category: ScannerCategory::Trash,
            },
            found("system_caches", "cache_2", 5),
            ScanMessage::ScannerDone {
                scanner_id: "system_caches".to_string(),
                name: "System Caches".to_string(),
                category: ScannerCategory::System,
            },
            ScanMessage::ScanComplete,
        ],
    );
    assert!(complete);
    assert_eq!(progress.scanners_done, 2);
    assert_eq!(progress.active_scanners, 0);
    assert_eq!(progress.current_path, None);
    assert_eq!(list.selected(), Some(5));
    let r = report.unwrap();
    assert_eq!(r.categories()[0].name, "Trash");
    assert_eq!(r.categories()[0].category, ScannerCategory::Trash);
    assert_eq!(r.categories()[1].name, "System Caches");
    assert_eq!((r.total_size(), r.total_items()), (95, 4));
}

#[test]
fn a_scanner_without_findings_still_finishes() {
    let mut report = Some(ScanReport::new());
    let mut progress = ScanProgress::default();
    let mut list = ListState::new();
    let done = ScanMessage::ScannerDone {
        scanner_id: "system_logs".to_string(),
        name: "System Logs".to_string(),
        category: ScannerCategory::System,
    };
    assert!(!apply_message(&mut report, &mut progress, &mut list, done));
    assert_eq!(progress.scanners_done, 1);
    assert_eq!(progress.active_scanners, 0);
    assert!(report.as_ref().unwrap().categories().is_empty());
    assert_eq!(list.selected(), None);
    assert!(apply_message(&mut report, &mut progress, &mut list, ScanMessage::ScanComplete));
}

#[test]
fn messages_after_the_last_are_still_taken_in() {
    let mut report = Some(ScanReport::new());
    let mut progress = ScanProgress::default();
    let mut list = ListState::new();
    let complete = poll_scan_messages(
        &mut report,
        &mut progress,
        &mut list,
        vec![ScanMessage::ScanComplete, found("trash", "late", 1)],
    );
    assert!(complete);
    assert_eq!(report.unwrap().total_items(), 1);
    let mut none = None;
    assert!(!poll_scan_messages(&mut none, &mut progress, &mut list, vec![found("trash", "x", 1)]));
    assert!(none.is_none());
    assert!(!poll_scan_messages(&mut none, &mut progress, &mut list, Vec::new()));
}

#[test]
fn the_tool_as_it_starts() {
    let app = App::new(Config::default());
    assert!(app.report.is_none());
    assert_eq!(app.selected_category, 0);
    assert!(app.selected_items.is_empty());
    assert_eq!(app.list_state.selected(), Some(0));
    assert_eq!(app.mode, AppMode::CategorySelect);
    assert_eq!(app.prev_mode, None);
    assert!(!app.should_quit);
    assert!(app.clean_result.is_none());
    assert_eq!(app.available_scanners.len(), 13);
    assert!(app.available_scanners[0].enabled);
    assert!(!app.available_scanners[12].enabled);
    assert_eq!(app.sort_mode, SortMode::SizeDesc);
    assert_eq!(app.space_lens.current_path, "/");
    assert!(app.space_lens.parallel_scan);
    assert_eq!(app.space_lens.thread_count, 4);
    assert!(app.apps_mode.apps.is_empty());
}
