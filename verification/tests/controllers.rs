use cleanx::collections::StringSet;
use cleanx::config::Config;
use cleanx::plugin::{CategoryScanResult, CleanResult, ScanReport, ScanResult, ScannerCategory};
use cleanx::tui::controller::app_list::AppListContext;
use cleanx::tui::controller::category_select::CategorySelectContext;
use cleanx::tui::controller::common::{
    clean_finished, confirmed_clean_config, ConfirmContext, ConfirmDecision, HelpContext,
    ResultContext,
};
use cleanx::tui::controller::review::{ReviewAction, ReviewContext};
use cleanx::tui::controller::space_lens::{
    delete_finished, delete_result, LensAction, SpaceLensContext,
};
use cleanx::tui::controller::uninstall::{
    select_all_related, uninstall_finished, UninstallResultContext, UninstallReviewContext,
};
use cleanx::tui::controller::{
    handle_app_list_key, handle_category_select_key, handle_confirm_key, handle_help_key,
    handle_result_key, handle_review_key, handle_space_lens_key, handle_uninstall_result_key,
    handle_uninstall_review_key, KeyCode,
};
use cleanx::tui::service::disk::ScanStart;
use cleanx::tui::service::scanner::ScannerKind;
use cleanx::tui::state::app_state::available_scanners;
use cleanx::tui::state::{
    App, AppMode, AppsModeState, CachedScan, FolderEntry, ListState, SortMode, SpaceLensMode,
    SpaceLensState,
};
use cleanx::uninstaller::{AppBundle, RelatedCategory, RelatedFile, UninstallResult};

fn finding(id: &str, size: u64) -> ScanResult {
    ScanResult::new(id.to_string(), id.to_string(), format!("/tmp/{}", id)).with_size(size)
}

fn report() -> ScanReport {
    let group = |id: &str, sizes: &[u64]| CategoryScanResult {
        scanner_id: id.to_string(),
        name: id.to_string(),
        category: ScannerCategory::System,
        icon: String::new(),
        items: sizes.iter().map(|s| finding(&format!("{}{}", id, s), *s)).collect(),
    };
    ScanReport::from_categories(vec![group("a", &[3, 1, 2]), group("b", &[7])], 0)
}

fn review_key(app: &mut App, code: KeyCode) -> ReviewAction {
    let mut ctx = ReviewContext {
        list_state: &mut app.list_state,
        selected_category: &mut app.selected_category,
        selected_items: &mut app.selected_items,
        report: &mut app.report,
        mode: &mut app.mode,
        prev_mode: &mut app.prev_mode,
        should_quit: &mut app.should_quit,
        sort_mode: &mut app.sort_mode,
        space_lens: &mut app.space_lens,
        config: &app.config,
        available_scanners: &app.available_scanners,
        scan_progress: &mut app.scan_progress,
    };
    handle_review_key(&mut ctx, code, "/Users/u")
}

fn reviewing() -> App {
    let mut app = App::new(Config::default());
    app.report = Some(report());
    app.mode = AppMode::Review;
    app
}

fn lens_key(app: &mut App, code: KeyCode) -> LensAction {
    let mut ctx = SpaceLensContext {
        list_state: &mut app.list_state,
        space_lens: &mut app.space_lens,
        mode: &mut app.mode,
        prev_mode: &mut app.prev_mode,
        should_quit: &mut app.should_quit,
    };
    handle_space_lens_key(&mut ctx, code)
}

fn entry(name: &str, size: u64, is_dir: bool) -> FolderEntry {
    FolderEntry { name: name.to_string(), path: format!("/data/{}", name), size, is_dir, scanning: false }
}

fn exploring() -> App {
    let mut app = App::new(Config::default());
    app.mode = AppMode::SpaceLens;
    app.space_lens.current_path = "/data".to_string();
    app.space_lens.entries = vec![entry("big", 50, true), entry("file", 20, false), entry("small", 5, true)];
    app.space_lens.total_size = 75;
    app
}

#[test]
fn result_and_help_screens() {
    let mut mode = AppMode::ResultDisplay;
    for code in [KeyCode::Up, KeyCode::Char('x'), KeyCode::Tab] {
        handle_result_key(&mut ResultContext { mode: &mut mode }, code);
        assert_eq!(mode, AppMode::ResultDisplay);
    }
    for code in [KeyCode::Enter, KeyCode::Esc, KeyCode::Char('q')] {
        mode = AppMode::ResultDisplay;
        handle_result_key(&mut ResultContext { mode: &mut mode }, code);
        assert_eq!(mode, AppMode::Review);
    }
    let mut mode = AppMode::Help;
    let mut prev = Some(AppMode::SpaceLens);
    handle_help_key(&mut HelpContext { mode: &mut mode, prev_mode: &mut prev }, KeyCode::Enter);
    assert_eq!((mode, prev), (AppMode::Help, Some(AppMode::SpaceLens)));
    handle_help_key(&mut HelpContext { mode: &mut mode, prev_mode: &mut prev }, KeyCode::Char('?'));
    assert_eq!((mode, prev), (AppMode::SpaceLens, None));
    mode = AppMode::Help;
    handle_help_key(&mut HelpContext { mode: &mut mode, prev_mode: &mut prev }, KeyCode::Esc);
    assert_eq!((mode, prev), (AppMode::Review, None));
}

#[test]
fn confirming_a_clean_up() {
    let mut mode = AppMode::ConfirmClean;
    let mut clean_result = None;
    let mut selected = StringSet::new();
    selected.insert("b".to_string());
    selected.insert("c".to_string());
    let mut ctx = ConfirmContext {
        mode: &mut mode,
        selected_items: &selected,
        report_items: vec![finding("a", 1), finding("b", 2), finding("c", 3)],
        clean_result: &mut clean_result,
    };
    assert!(matches!(handle_confirm_key(&mut ctx, KeyCode::Up), ConfirmDecision::Nothing));
    match handle_confirm_key(&mut ctx, KeyCode::Char('y')) {
        ConfirmDecision::Clean(items) => {
            let ids: Vec<&str> = items.iter().map(|i| i.id.as_str()).collect();
            assert_eq!(ids, vec!["b", "c"]);
        }
        other => panic!("{:?}", other),
    }
    assert!(matches!(handle_confirm_key(&mut ctx, KeyCode::Enter), ConfirmDecision::Clean(_)));
    let result = CleanResult {
        success_count: 2,
        failed_count: 0,
        total_freed: 5,
        failed_items: Vec::new(),
        duration_ms: 12,
    };
    clean_finished(&mut ctx, &result);
    assert_eq!(mode, AppMode::ResultDisplay);
    let shown = clean_result.unwrap();
    assert_eq!((shown.success_count, shown.failed_count, shown.total_freed, shown.duration_ms), (2, 0, 5, 12));
    let config = confirmed_clean_config();
    assert!(!config.dry_run && config.log_history);

    let mut mode = AppMode::ConfirmClean;
    let mut clean_result = None;
    let mut ctx = ConfirmContext {
        mode: &mut mode,
        selected_items: &selected,
        report_items: Vec::new(),
        clean_result: &mut clean_result,
    };
    assert!(matches!(handle_confirm_key(&mut ctx, KeyCode::Char('n')), ConfirmDecision::Nothing));
    assert_eq!(mode, AppMode::Review);
    assert!(clean_result.is_none());
}

#[test]
fn keys_of_the_scanner_selection() {
    let mut app = App::new(Config::default());
    let mut key = |app: &mut App, code: KeyCode| {
        let mut ctx = CategorySelectContext {
            list_state: &mut app.list_state,
            available_scanners: &mut app.available_scanners,
            mode: &mut app.mode,
            should_quit: &mut app.should_quit,
            config: &app.config,
            report: &mut app.report,
            scan_progress: &mut app.scan_progress,
        };
        handle_category_select_key(&mut ctx, code)
    };
    let on = |app: &App| -> Vec<bool> { app.available_scanners.iter().map(|s| s.enabled).collect() };
    assert!(key(&mut app, KeyCode::Down).is_none());
    assert!(key(&mut app, KeyCode::Char(' ')).is_none());
    assert!(!app.available_scanners[1].enabled);
    assert_eq!(app.available_scanners[1].id, "system_logs");
    key(&mut app, KeyCode::Char(' '));
    assert!(app.available_scanners[1].enabled);
    key(&mut app, KeyCode::Char('n'));
    assert_eq!(on(&app), vec![false; 13]);
    assert!(key(&mut app, KeyCode::Char('r')).is_none());
    assert!(app.report.is_none());
    assert_eq!(app.mode, AppMode::CategorySelect);
    key(&mut app, KeyCode::Enter);
    assert_eq!(app.mode, AppMode::CategorySelect);
    key(&mut app, KeyCode::Char('a'));
    assert_eq!(on(&app), vec![true; 13]);
    for _ in 0..20 {
        key(&mut app, KeyCode::Down);
    }
    assert_eq!(app.list_state.selected(), Some(12));
    key(&mut app, KeyCode::Up);
    assert_eq!(app.list_state.selected(), Some(11));
    key(&mut app, KeyCode::Char(' '));
    let session = key(&mut app, KeyCode::Char('r')).unwrap();
    assert_eq!(session.scanners.len(), 12);
    assert!(!session.scanners.contains(&ScannerKind::Maintenance));
    assert_eq!(app.mode, AppMode::Review);
    assert_eq!(app.scan_progress.total_scanners, 12);
    assert!(app.report.as_ref().unwrap().categories().is_empty());
    app.mode = AppMode::CategorySelect;
    key(&mut app, KeyCode::Tab);
    assert_eq!(app.mode, AppMode::CategorySelect);
    app.report = Some(report());
    key(&mut app, KeyCode::Tab);
    assert_eq!(app.mode, AppMode::Review);
    assert!(!app.should_quit);
    key(&mut app, KeyCode::Char('q'));
    assert!(app.should_quit);
    assert_eq!(available_scanners().len(), 13);
}

#[test]
fn keys_of_the_review() {
    let mut app = reviewing();
    assert!(matches!(review_key(&mut app, KeyCode::Down), ReviewAction::Nothing));
    assert_eq!(app.list_state.selected(), Some(1));
    review_key(&mut app, KeyCode::Char(' '));
    assert!(app.selected_items.contains("a1"));
    review_key(&mut app, KeyCode::Char(' '));
    assert!(app.selected_items.is_empty());
    review_key(&mut app, KeyCode::Enter);
    assert_eq!(app.mode, AppMode::Review);
    review_key(&mut app, KeyCode::Char('a'));
    assert_eq!(app.selected_items.len(), 3);
    review_key(&mut app, KeyCode::Right);
    assert_eq!((app.selected_category, app.list_state.selected()), (1, Some(0)));
    review_key(&mut app, KeyCode::Right);
    assert_eq!(app.selected_category, 1);
    review_key(&mut app, KeyCode::Down);
    assert_eq!(app.list_state.selected(), Some(0));
    review_key(&mut app, KeyCode::Char(' '));
    assert!(app.selected_items.contains("b7"));
    review_key(&mut app, KeyCode::Left);
    assert_eq!(app.selected_category, 0);
    review_key(&mut app, KeyCode::Enter);
    assert_eq!(app.mode, AppMode::ConfirmClean);
    app.mode = AppMode::Review;
    review_key(&mut app, KeyCode::Char('n'));
    assert!(app.selected_items.is_empty());
    review_key(&mut app, KeyCode::Char('?'));
    assert_eq!((app.mode, app.prev_mode), (AppMode::Help, Some(AppMode::Review)));
    app.mode = AppMode::Review;
    review_key(&mut app, KeyCode::Esc);
    assert_eq!(app.mode, AppMode::CategorySelect);
    review_key(&mut app, KeyCode::Char('q'));
    assert!(app.should_quit);
}

#[test]
fn the_review_changes_the_order() {
    let mut app = reviewing();
    let sizes = |app: &App| -> Vec<u64> {
        app.report.as_ref().unwrap().categories()[0].items.iter().map(|i| i.size).collect()
    };
    assert_eq!(sizes(&app), vec![3, 1, 2]);
    review_key(&mut app, KeyCode::Char('s'));
    assert_eq!(app.sort_mode, SortMode::SizeAsc);
    assert_eq!(sizes(&app), vec![1, 2, 3]);
    review_key(&mut app, KeyCode::Char('s'));
    review_key(&mut app, KeyCode::Char('s'));
    review_key(&mut app, KeyCode::Char('s'));
    assert_eq!(app.sort_mode, SortMode::SizeDesc);
    assert_eq!(sizes(&app), vec![3, 2, 1]);
    assert_eq!(app.report.as_ref().unwrap().total_size(), 13);
}

#[test]
fn the_review_asks_for_a_rescan_and_for_the_explorer() {
    let mut app = reviewing();
    app.selected_items.insert("a1".to_string());
    match review_key(&mut app, KeyCode::Char('r')) {
        ReviewAction::Scan(session) => assert_eq!(session.scanners.len(), 9),
        other => panic!("{:?}", other),
    }
    assert!(app.selected_items.is_empty());
    assert!(app.report.as_ref().unwrap().categories().is_empty());
    assert_eq!(app.scan_progress.total_scanners, 9);
    for s in app.available_scanners.iter_mut() {
        s.enabled = false;
    }
    assert!(matches!(review_key(&mut app, KeyCode::Char('r')), ReviewAction::Nothing));
    assert!(app.report.is_none());
    match review_key(&mut app, KeyCode::Char('v')) {
        ReviewAction::Explore(start) => assert_eq!(start, ScanStart::ListDirectory),
        other => panic!("{:?}", other),
    }
    assert_eq!(app.mode, AppMode::SpaceLens);
    assert_eq!(app.prev_mode, Some(AppMode::Review));
    assert_eq!(app.space_lens.current_path, "/Users/u");
    assert!(app.space_lens.loading);
    assert_eq!(app.list_state.selected(), Some(0));
}

#[test]
fn the_explorer_descends_and_ascends() {
    let mut app = exploring();
    app.space_lens.loading = true;
    app.list_state.select(Some(1));
    assert!(matches!(lens_key(&mut app, KeyCode::Enter), LensAction::Nothing));
    assert_eq!(app.space_lens.current_path, "/data");
    lens_key(&mut app, KeyCode::Up);
    match lens_key(&mut app, KeyCode::Enter) {
        LensAction::Scan(start) => assert_eq!(start, ScanStart::ListDirectory),
        other => panic!("{:?}", other),
    }
    assert_eq!(app.space_lens.current_path, "/data/big");
    assert!(app.space_lens.entries.is_empty());
    assert_eq!(app.list_state.selected(), Some(0));
    // the listing that was left is kept, whatever its state
    let kept = app.space_lens.cache.get("/data").unwrap();
    assert!(kept.was_loading);
    assert_eq!(kept.entries.len(), 3);
    assert_eq!(kept.total_size, 75);
    // back up: the snapshot was taken while loading, so the scan is resumed
    match lens_key(&mut app, KeyCode::Backspace) {
        LensAction::Scan(start) => assert_eq!(start, ScanStart::ListDirectory),
        other => panic!("{:?}", other),
    }
    assert_eq!(app.space_lens.current_path, "/data");
    assert_eq!(app.space_lens.entries.len(), 3);
    assert_eq!(app.space_lens.total_size, 75);
}

#[test]
fn the_explorer_reuses_a_complete_snapshot() {
    let mut app = exploring();
    app.space_lens.cache.insert(
        "/data/big".to_string(),
        CachedScan { entries: vec![entry("inner", 50, false)], total_size: 50, was_loading: false },
    );
    match lens_key(&mut app, KeyCode::Enter) {
        LensAction::Scan(start) => assert_eq!(start, ScanStart::UseCache),
        other => panic!("{:?}", other),
    }
    assert_eq!(app.space_lens.entries.len(), 1);
    assert_eq!(app.space_lens.total_size, 50);
    assert!(!app.space_lens.loading);
    assert!(app.space_lens.pending_scans.is_empty());
    // a rescan drops the snapshot
    match lens_key(&mut app, KeyCode::Char('r')) {
        LensAction::Scan(start) => assert_eq!(start, ScanStart::ListDirectory),
        other => panic!("{:?}", other),
    }
    assert!(app.space_lens.entries.is_empty());
    assert!(!app.space_lens.cache.contains_key("/data/big"));
}

#[test]
fn leaving_the_explorer() {
    let mut app = exploring();
    app.space_lens.current_path = "/".to_string();
    app.space_lens.entries.clear();
    lens_key(&mut app, KeyCode::Esc);
    assert_eq!(app.mode, AppMode::SpaceLens);
    app.prev_mode = Some(AppMode::Review);
    lens_key(&mut app, KeyCode::Esc);
    assert_eq!((app.mode, app.prev_mode), (AppMode::Review, None));
    app.mode = AppMode::SpaceLens;
    lens_key(&mut app, KeyCode::Char('q'));
    assert!(app.should_quit);
    app.should_quit = false;
    app.prev_mode = Some(AppMode::CategorySelect);
    lens_key(&mut app, KeyCode::Char('q'));
    assert_eq!(app.mode, AppMode::CategorySelect);
    assert!(!app.should_quit);
    app.mode = AppMode::SpaceLens;
    lens_key(&mut app, KeyCode::Char('?'));
    assert_eq!((app.mode, app.prev_mode), (AppMode::Help, Some(AppMode::SpaceLens)));
}

#[test]
fn the_explorer_switches_between_pool_and_single_thread() {
    let mut app = exploring();
    app.space_lens.pending_scans.insert("/data".to_string());
    lens_key(&mut app, KeyCode::Char('p'));
    assert!(!app.space_lens.parallel_scan);
    assert!(app.space_lens.pending_scans.is_empty());
    app.space_lens.pending_scans.insert("/data".to_string());
    lens_key(&mut app, KeyCode::Char('p'));
    assert!(app.space_lens.parallel_scan);
    assert!(app.space_lens.pending_scans.contains("/data"));
}

#[test]
fn deleting_in_the_explorer() {
    let mut app = exploring();
    app.space_lens.cache.insert(
        "/data".to_string(),
        CachedScan { entries: Vec::new(), total_size: 75, was_loading: false },
    );
    app.list_state.select(Some(2));
    lens_key(&mut app, KeyCode::Char('d'));
    assert_eq!(app.space_lens.delete_mode, SpaceLensMode::ConfirmDelete);
    assert_eq!(app.space_lens.pending_delete.as_ref().unwrap().name, "small");
    // declined
    lens_key(&mut app, KeyCode::Char('n'));
    assert_eq!(app.space_lens.delete_mode, SpaceLensMode::Browse);
    assert!(app.space_lens.pending_delete.is_none());
    // confirmed
    lens_key(&mut app, KeyCode::Char('d'));
    lens_key(&mut app, KeyCode::Down);
    let target = match lens_key(&mut app, KeyCode::Enter) {
        LensAction::Delete(e) => e,
        other => panic!("{:?}", other),
    };
    assert_eq!(target.path, "/data/small");
    assert!(app.space_lens.pending_delete.is_none());
    let result = delete_result(&target, None);
    assert!(result.success);
    assert_eq!(result.size, 5);
    {
        let mut ctx = SpaceLensContext {
            list_state: &mut app.list_state,
            space_lens: &mut app.space_lens,
            mode: &mut app.mode,
            prev_mode: &mut app.prev_mode,
            should_quit: &mut app.should_quit,
        };
        delete_finished(&mut ctx, &target, result);
    }
    assert_eq!(app.space_lens.entries.len(), 2);
    assert_eq!(app.space_lens.total_size, 70);
    assert!(!app.space_lens.cache.contains_key("/data"));
    assert_eq!(app.list_state.selected(), Some(1));
    assert_eq!(app.space_lens.delete_mode, SpaceLensMode::ShowResult);
    assert!(app.space_lens.delete_result.as_ref().unwrap().success);
    lens_key(&mut app, KeyCode::Up);
    assert_eq!(app.list_state.selected(), Some(1));
    lens_key(&mut app, KeyCode::Enter);
    assert_eq!(app.space_lens.delete_mode, SpaceLensMode::Browse);
    assert!(app.space_lens.delete_result.is_none());
    let failed = delete_result(&target, Some("Permission denied".to_string()));
    assert!(!failed.success);
    assert_eq!(failed.size, 0);
    assert_eq!(failed.error.as_deref(), Some("Permission denied"));
    assert_eq!(failed.path, "/data/small");
}

#[test]
fn confirming_without_a_pending_deletion() {
    let mut app = exploring();
    app.space_lens.delete_mode = SpaceLensMode::ConfirmDelete;
    assert!(matches!(lens_key(&mut app, KeyCode::Char('y')), LensAction::Nothing));
    assert_eq!(app.space_lens.delete_mode, SpaceLensMode::Browse);
    let mut empty = SpaceLensState::default();
    let mut list = ListState::new();
    let mut mode = AppMode::SpaceLens;
    let mut prev = None;
    let mut quit = false;
    let mut ctx = SpaceLensContext {
        list_state: &mut list,
        space_lens: &mut empty,
        mode: &mut mode,
        prev_mode: &mut prev,
        should_quit: &mut quit,
    };
    assert!(matches!(handle_space_lens_key(&mut ctx, KeyCode::Char('d')), LensAction::Nothing));
    assert!(matches!(handle_space_lens_key(&mut ctx, KeyCode::Enter), LensAction::Nothing));
    assert_eq!(empty.delete_mode, SpaceLensMode::Browse);
}

fn apps_state() -> AppsModeState {
    let mut apps = AppsModeState::default();
    apps.apps = vec![
        AppBundle::new("/Applications/A.app".to_string()),
        AppBundle::new("/Applications/B.app".to_string()),
    ];
    apps
}

#[test]
fn keys_of_the_application_list() {
    let mut apps = apps_state();
    let mut list = ListState::new();
    list.select(Some(0));
    let mut mode = AppMode::AppList;
    let mut prev = None;
    let mut quit = false;
    let mut ctx = AppListContext {
        list_state: &mut list,
        apps_mode: &mut apps,
        mode: &mut mode,
        prev_mode: &mut prev,
        should_quit: &mut quit,
    };
    handle_app_list_key(&mut ctx, KeyCode::Down);
    handle_app_list_key(&mut ctx, KeyCode::Down);
    handle_app_list_key(&mut ctx, KeyCode::Enter);
    handle_app_list_key(&mut ctx, KeyCode::Char('z'));
    assert_eq!(list.selected(), Some(1));
    assert_eq!(apps.selected_app_idx, Some(1));
    assert_eq!(mode, AppMode::LoadingRelatedFiles);
    let mut ctx = AppListContext {
        list_state: &mut list,
        apps_mode: &mut apps,
        mode: &mut mode,
        prev_mode: &mut prev,
        should_quit: &mut quit,
    };
    handle_app_list_key(&mut ctx, KeyCode::Char('?'));
    handle_app_list_key(&mut ctx, KeyCode::Char('q'));
    assert_eq!((mode, prev, quit), (AppMode::Help, Some(AppMode::LoadingRelatedFiles), true));
}

#[test]
fn review_before_an_uninstall() {
    let mut apps = apps_state();
    apps.selected_app_idx = Some(1);
    apps.cached_related_files = vec![
        RelatedFile { path: "/l/cache".to_string(), category: RelatedCategory::Caches, size: 1 },
        RelatedFile { path: "/l/daemon".to_string(), category: RelatedCategory::LaunchDaemons, size: 2 },
        RelatedFile { path: "/l/prefs".to_string(), category: RelatedCategory::Preferences, size: 3 },
    ];
    select_all_related(&mut apps);
    let mut rows: Vec<usize> = apps.selected_related.iter().copied().collect();
    rows.sort();
    assert_eq!(rows, vec![0, 1, 3]);
    let mut list = ListState::new();
    list.select(Some(0));
    let mut mode = AppMode::UninstallReview;
    let mut prev = None;
    let mut ctx = UninstallReviewContext {
        list_state: &mut list,
        apps_mode: &mut apps,
        mode: &mut mode,
        prev_mode: &mut prev,
    };
    for _ in 0..5 {
        assert!(handle_uninstall_review_key(&mut ctx, KeyCode::Down).is_none());
    }
    // the last row is that of the last file
    handle_uninstall_review_key(&mut ctx, KeyCode::Char(' '));
    handle_uninstall_review_key(&mut ctx, KeyCode::Up);
    handle_uninstall_review_key(&mut ctx, KeyCode::Char(' '));
    let request = handle_uninstall_review_key(&mut ctx, KeyCode::Enter).unwrap();
    assert_eq!(request.app_idx, 1);
    assert_eq!(request.app.path, "/Applications/B.app");
    let paths: Vec<&str> = request.related.iter().map(|f| f.path.as_str()).collect();
    assert_eq!(paths, vec!["/l/cache", "/l/daemon"]);
    let mut result = UninstallResult::new();
    result.deleted_app = true;
    result.deleted_related = vec!["/l/cache".to_string()];
    result.total_freed = 4;
    uninstall_finished(&mut ctx, request.app_idx, result);
    assert_eq!(mode, AppMode::UninstallResult);
    assert_eq!(apps.apps.len(), 1);
    assert_eq!(apps.apps[0].path, "/Applications/A.app");
    assert!(apps.selected_related.is_empty());
    assert_eq!(apps.selected_app_idx, None);
    assert!(apps.cached_related_files.is_empty());
    let shown = apps.uninstall_result.as_ref().unwrap();
    assert!(shown.app_deleted);
    assert_eq!((shown.related_deleted, shown.total_freed), (1, 4));
    apps.selected_related.insert(3);
    handle_uninstall_result_key(&mut UninstallResultContext { apps_mode: &mut apps, mode: &mut mode }, KeyCode::Up);
    assert_eq!(mode, AppMode::UninstallResult);
    handle_uninstall_result_key(&mut UninstallResultContext { apps_mode: &mut apps, mode: &mut mode }, KeyCode::Enter);
    assert_eq!(mode, AppMode::AppList);
    assert!(apps.selected_related.is_empty());
}

#[test]
fn leaving_the_uninstall_review() {
    let mut apps = apps_state();
    apps.selected_app_idx = Some(0);
    apps.selected_related.insert(0);
    let mut list = ListState::new();
    let mut mode = AppMode::UninstallReview;
    let mut prev = None;
    let mut ctx = UninstallReviewContext {
        list_state: &mut list,
        apps_mode: &mut apps,
        mode: &mut mode,
        prev_mode: &mut prev,
    };
    handle_uninstall_review_key(&mut ctx, KeyCode::Char('n'));
    handle_uninstall_review_key(&mut ctx, KeyCode::Char('a'));
    handle_uninstall_review_key(&mut ctx, KeyCode::Char('?'));
    handle_uninstall_review_key(&mut ctx, KeyCode::Esc);
    assert_eq!(mode, AppMode::AppList);
    assert_eq!(prev, Some(AppMode::UninstallReview));
    assert!(apps.selected_related.is_empty());
    assert_eq!(apps.selected_app_idx, None);
    let mut ctx = UninstallReviewContext {
        list_state: &mut list,
        apps_mode: &mut apps,
        mode: &mut mode,
        prev_mode: &mut prev,
    };
    assert!(handle_uninstall_review_key(&mut ctx, KeyCode::Enter).is_none());
    apps.selected_app_idx = Some(7);
    let mut ctx = UninstallReviewContext {
        list_state: &mut list,
        apps_mode: &mut apps,
        mode: &mut mode,
        prev_mode: &mut prev,
    };
    assert!(handle_uninstall_review_key(&mut ctx, KeyCode::Enter).is_none());
}
