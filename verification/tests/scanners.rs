use cleanx::plugin::{SafetyLevel, ScanConfig, ScanResult, ScannerCategory};
use cleanx::scanner::large_files::{DEFAULT_DEPTH, DEFAULT_MIN_AGE_DAYS, DEFAULT_MIN_SIZE};
use cleanx::scanner::maintenance::MaintenanceScanner;
use cleanx::scanner::{
    any_exists, finish, run_scan, BrowserCacheScanner, CacheScanner, Candidate, DevJunkScanner,
    LargeOldFilesScanner, LogScanner, MailAttachmentsScanner, MusicJunkScanner, PhotoJunkScanner,
    PrivacyScanner, Scanner, TrashScanner,
};
use cleanx::time::Timestamp;

const MB: u64 = 1024 * 1024;
const DAY: i64 = 86_400;

fn dir(path: &str, size: u64) -> Candidate {
    Candidate {
        path: path.to_string(),
        slot: 0,
        is_dir: true,
        is_file: false,
        size,
        file_count: 3,
        last_accessed: Some(Timestamp { secs: 10, nanos: 0 }),
        last_modified: Some(Timestamp { secs: 20, nanos: 0 }),
    }
}

fn file(path: &str, size: u64) -> Candidate {
    Candidate { is_dir: false, is_file: true, file_count: 0, ..dir(path, size) }
}

fn at_slot(slot: usize, c: Candidate) -> Candidate {
    Candidate { slot, ..c }
}

fn config(min_size: u64) -> ScanConfig {
    ScanConfig { min_size, ..ScanConfig::default() }
}

fn ids(items: &Vec<ScanResult>) -> Vec<&str> {
    items.iter().map(|i| i.id.as_str()).collect()
}

#[test]
fn scan_settings_by_default() {
    let c = ScanConfig::default();
    assert_eq!(c.min_size, 1024 * 1024);
    assert_eq!(c.max_depth, 3);
    assert!(c.excluded_paths.is_empty());
    assert!(!c.follow_symlinks);
    let d = c.clone();
    assert_eq!((d.min_size, d.max_depth), (1024 * 1024, 3));
}

#[test]
fn cache_scanner_reports_directories_by_size() {
    let scanner = CacheScanner::with_home("/Users/u");
    assert_eq!(
        scanner.locations().clone(),
        vec!["/Users/u/Library/Caches", "/Users/u/Library/Developer/Xcode/DerivedData"]
    );
    let mut cfg = config(10);
    cfg.excluded_paths = vec!["/Users/u/Library/Caches/keep".to_string()];
    let candidates = vec![
        dir("/Users/u/Library/Caches/small", 9),
        dir("/Users/u/Library/Caches/a", 10),
        file("/Users/u/Library/Caches/file", 500),
        dir("/Users/u/Library/Caches/keep/inner", 900),
        dir("/Users/u/Library/Caches/.hidden", 70),
        dir("/Users/u/Library/Caches/b", 300),
    ];
    let found = run_scan(&scanner, &cfg, &candidates);
    assert_eq!(ids(&found), vec!["cache_2", "cache_1", "cache_0"]);
    assert_eq!(found[0].name, "b");
    assert_eq!(found[0].size, 300);
    assert_eq!(found[0].file_count, 3);
    assert_eq!(found[0].safety_level, SafetyLevel::Safe);
    assert_eq!(found[1].name, ".hidden");
    assert_eq!(found[1].safety_level, SafetyLevel::Caution);
    assert_eq!(found[2].path, "/Users/u/Library/Caches/a");
    assert_eq!(found[2].category, ScannerCategory::System);
    assert_eq!(found[2].metadata.get("scanner_id").unwrap(), "system_caches");
    assert_eq!(found[2].last_accessed, Some(Timestamp { secs: 10, nanos: 0 }));
    assert_eq!(found[2].last_modified, Some(Timestamp { secs: 20, nanos: 0 }));
    assert_eq!(scanner.id(), "system_caches");
    assert_eq!(scanner.name(), "System Caches");
    assert_eq!(scanner.category(), ScannerCategory::System);
    assert!(scanner.is_available());
}

#[test]
fn findings_are_limited_and_sorted() {
    let scanner = CacheScanner::with_home("/Users/u");
    let candidates: Vec<Candidate> =
        (0..150u64).map(|i| dir(&format!("/c/{}", i), 1000 + (i * 37) % 101)).collect();
    let found = run_scan(&scanner, &config(0), &candidates);
    assert_eq!(found.len(), 100);
    for pair in found.windows(2) {
        assert!(pair[0].size >= pair[1].size);
    }
    assert_eq!(found[0].size, 1100);
    let dev = DevJunkScanner::with_home("/Users/u");
    assert_eq!(run_scan(&dev, &config(0), &candidates).len(), 50);
    assert_eq!(scanner.limit(), 100);
    assert_eq!(dev.limit(), 50);
}

#[test]
fn findings_of_the_same_size_keep_the_order_of_the_walk() {
    let scanner = LogScanner::with_home("/Users/u");
    let candidates = vec![
        file("/l/a.log", 5),
        file("/l/b.log", 9),
        file("/l/c.log", 5),
        file("/l/d.log", 9),
        file("/l/e.log", 5),
    ];
    let found = run_scan(&scanner, &config(1), &candidates);
    let names: Vec<&str> = found.iter().map(|i| i.name.as_str()).collect();
    assert_eq!(names, vec!["b.log", "d.log", "a.log", "c.log", "e.log"]);
    assert_eq!(ids(&found), vec!["log_1", "log_3", "log_0", "log_2", "log_4"]);
}

#[test]
fn log_scanner_counts_a_file_as_one() {
    let scanner = LogScanner::with_home("/Users/u");
    assert_eq!(scanner.locations().clone(), vec!["/Users/u/Library/Logs"]);
    let other = Candidate { is_dir: false, is_file: false, ..dir("/l/socket", 100) };
    let found = run_scan(&scanner, &config(1), &vec![dir("/l/dir", 50), other, file("/l/f.log", 60)]);
    assert_eq!(found.len(), 2);
    assert_eq!((found[0].name.as_str(), found[0].file_count), ("f.log", 1));
    assert_eq!((found[1].name.as_str(), found[1].file_count), ("dir", 3));
    assert!(found[0].metadata.is_empty());
    assert_eq!(scanner.id(), "system_logs");
}

#[test]
fn trash_is_one_finding_if_it_holds_anything() {
    let scanner = TrashScanner::with_home("/Users/u");
    assert_eq!(scanner.locations().clone(), vec!["/Users/u/.Trash"]);
    assert!(run_scan(&scanner, &config(MB), &vec![dir("/Users/u/.Trash", 0)]).is_empty());
    let found = run_scan(&scanner, &config(MB), &vec![dir("/Users/u/.Trash", 1)]);
    assert_eq!(found.len(), 1);
    assert_eq!(found[0].id, "trash_main");
    assert_eq!(found[0].name, "Trash");
    assert_eq!(found[0].safety_level, SafetyLevel::Safe);
    assert_eq!(found[0].category, ScannerCategory::Trash);
    assert_eq!(found[0].metadata.get("scanner_id").unwrap(), "trash");
    assert_eq!(scanner.category(), ScannerCategory::Trash);
    assert_eq!(scanner.limit(), 100);
}

#[test]
fn browser_caches_by_browser() {
    let scanner = BrowserCacheScanner::with_home("/Users/u");
    let places = scanner.locations();
    assert_eq!(places.len(), 13);
    assert_eq!(places[0].label, "Safari");
    assert_eq!(places[0].path, "/Users/u/Library/Caches/com.apple.Safari");
    assert_eq!(places[8].label, "Opera GX");
    assert_eq!(places[12].path, "/Users/u/Library/Caches/com.kagi.kagimac");
    let candidates = vec![
        at_slot(8, dir("/Users/u/Library/Caches/com.operasoftware.OperaGX", 5 * MB)),
        at_slot(1, dir("/Users/u/Library/Caches/Google/Chrome", MB - 1)),
        at_slot(0, dir("/Users/u/Library/Caches/com.apple.Safari", 9 * MB)),
        at_slot(13, dir("/nowhere", 9 * MB)),
    ];
    let found = run_scan(&scanner, &config(MB), &candidates);
    // the largest first, whatever the order of the walk
    assert_eq!(ids(&found), vec!["browser_safari", "browser_opera gx"]);
    assert_eq!(found[0].name, "Safari Cache");
    assert_eq!(found[1].name, "Opera GX Cache");
    assert_eq!(found[1].safety_level, SafetyLevel::Safe);
    assert_eq!(found[1].category, ScannerCategory::Browser);
    assert_eq!(scanner.id(), "browser_cache");
    assert_eq!(scanner.name(), "Browser Caches");
}

#[test]
fn dev_junk_by_pattern() {
    let scanner = DevJunkScanner::with_home("/Users/u");
    assert_eq!(scanner.pattern_count(), 8);
    assert_eq!(scanner.locations().len(), 6);
    assert_eq!(scanner.locations()[1], "/Users/u/Projects");
    assert_eq!(scanner.pattern_under("/Users/u/Projects", 0), "/Users/u/Projects/**/node_modules");
    assert_eq!(scanner.pattern_under("/Users/u/src", 7), "/Users/u/src/**/.venv");
    let mut cfg = config(100);
    cfg.excluded_paths = vec!["/Users/u/Projects/vendor".to_string()];
    let candidates = vec![
        at_slot(0, dir("/Users/u/Projects/app/node_modules", 500)),
        at_slot(1, dir("/Users/u/Projects/tool/target", 900)),
        at_slot(1, file("/Users/u/Projects/tool/target", 900)),
        at_slot(0, dir("/Users/u/Projects/vendor/x/node_modules", 900)),
        at_slot(8, dir("/Users/u/Projects/q", 900)),
        at_slot(5, dir("/Users/u/Projects/app/.cache", 99)),
    ];
    let found = run_scan(&scanner, &cfg, &candidates);
    assert_eq!(ids(&found), vec!["dev_target_1", "dev_node_modules_0"]);
    assert_eq!(found[0].name, "target (target)");
    assert_eq!(found[1].name, "node_modules (node_modules)");
    assert_eq!(found[0].category, ScannerCategory::Development);
    assert_eq!(found[0].metadata.get("scanner_id").unwrap(), "dev_junk");
}

#[test]
fn large_files_must_be_large_and_old() {
    let now = Timestamp { secs: 100 * DAY, nanos: 0 };
    let scanner = LargeOldFilesScanner::with_home("/Users/u", now);
    let old = |path: &str, size: u64, accessed_day: i64, modified_day: i64| Candidate {
        last_accessed: Some(Timestamp { secs: accessed_day * DAY, nanos: 0 }),
        last_modified: Some(Timestamp { secs: modified_day * DAY, nanos: 0 }),
        ..file(path, size)
    };
    let candidates = vec![
        old("/Users/u/big-old.iso", 200 * MB, 10, 50),
        old("/Users/u/big-new.iso", 200 * MB, 80, 99),
        old("/Users/u/big-read-lately.iso", 200 * MB, 99, 5),
        old("/Users/u/exactly.iso", 100 * MB, 70, 70),
        old("/Users/u/almost.iso", 100 * MB - 1, 1, 1),
        old("/Users/u/edge-young.iso", 300 * MB, 71, 71),
        Candidate { last_accessed: None, ..old("/Users/u/unknown.iso", 300 * MB, 1, 1) },
        Candidate { is_file: false, is_dir: true, ..old("/Users/u/dir", 300 * MB, 1, 1) },
        old("/Users/u/future.iso", 300 * MB, 200, 200),
    ];
    let found = run_scan(&scanner, &config(0), &candidates);
    let names: Vec<&str> = found.iter().map(|i| i.name.as_str()).collect();
    // the older of the two times counts
    assert_eq!(names, vec!["big-old.iso", "big-read-lately.iso", "exactly.iso"]);
    assert_eq!(found[1].id, "large_file_1");
    assert_eq!(found[0].id, "large_file_0");
    assert_eq!(found[0].file_count, 1);
    assert_eq!(found[0].safety_level, SafetyLevel::Caution);
    assert_eq!(DEFAULT_MIN_SIZE, 100 * MB);
    assert_eq!(DEFAULT_MIN_AGE_DAYS, 30);
    // a smaller limit from the settings
    let found = run_scan(&scanner, &config(50 * MB), &vec![old("/Users/u/x", 60 * MB, 1, 1)]);
    assert_eq!(found.len(), 1);
}

#[test]
fn age_of_a_file_in_days() {
    let t = |secs: i64, nanos: u32| Some(Timestamp { secs, nanos });
    let now = Timestamp { secs: 10 * DAY, nanos: 5 };
    assert_eq!(LargeOldFilesScanner::get_file_age_days(now, t(0, 0), t(9 * DAY, 0)), Some(10));
    assert_eq!(LargeOldFilesScanner::get_file_age_days(now, t(9 * DAY, 0), t(DAY + 1, 0)), Some(8));
    assert_eq!(LargeOldFilesScanner::get_file_age_days(now, t(0, 6), t(0, 6)), Some(9));
    assert_eq!(LargeOldFilesScanner::get_file_age_days(now, t(0, 5), t(0, 5)), Some(10));
    assert_eq!(LargeOldFilesScanner::get_file_age_days(now, t(10 * DAY, 5), t(10 * DAY, 5)), Some(0));
    assert_eq!(LargeOldFilesScanner::get_file_age_days(now, t(10 * DAY, 6), t(11 * DAY, 0)), None);
    assert_eq!(LargeOldFilesScanner::get_file_age_days(now, None, t(0, 0)), None);
    assert_eq!(LargeOldFilesScanner::get_file_age_days(now, t(0, 0), None), None);
    let far = Timestamp { secs: i64::MAX, nanos: 0 };
    assert_eq!(
        LargeOldFilesScanner::get_file_age_days(far, t(i64::MIN, 0), t(0, 0)),
        Some(((i64::MAX as i128 - i64::MIN as i128) / 86_400) as i64)
    );
}

#[test]
fn large_file_walk() {
    let scanner = LargeOldFilesScanner::with_home("/Users/u", Timestamp { secs: 0, nanos: 0 });
    assert_eq!(scanner.home(), "/Users/u");
    assert!(scanner.is_excluded("/Users/u/Library/x"));
    assert!(scanner.is_excluded("/Users/u/.Trash"));
    assert!(scanner.is_excluded("/Users/u/Pictures/2020/a.jpg"));
    assert!(!scanner.is_excluded("/Users/u/Documents"));
    assert!(!scanner.is_excluded("/Users/u/Library2"));
    assert!(scanner.descends("/Users/u/Documents", true));
    assert!(!scanner.descends("/Users/u/.git", true));
    assert!(scanner.descends("/Users/u/.profile", false));
    assert!(!scanner.descends("/Users/u/Music/x.mp3", false));
    assert_eq!(LargeOldFilesScanner::walk_depth(&ScanConfig::default()), 3);
    assert_eq!(DEFAULT_DEPTH, 10);
    assert_eq!(LargeOldFilesScanner::walk_depth(&ScanConfig { max_depth: 0, ..ScanConfig::default() }), 10);
}

#[test]
fn mail_attachments_are_named_after_the_account() {
    let scanner = MailAttachmentsScanner::with_home("/Users/u");
    assert_eq!(scanner.locations()[0].label, "Mail Attachments");
    assert_eq!(scanner.locations()[0].path, "/Users/u/Library/Mail");
    assert_eq!(scanner.locations()[1].label, "Mail Downloads");
    assert!(MailAttachmentsScanner::is_attachment_dir("/Users/u/Library/Mail/V10/x/Attachments"));
    assert!(MailAttachmentsScanner::is_attachment_dir("/x/Mail Downloads"));
    assert!(!MailAttachmentsScanner::is_attachment_dir("/x/Attachments2"));
    assert!(!MailAttachmentsScanner::is_attachment_dir("/"));
    assert_eq!(
        MailAttachmentsScanner::display_name("/m/me@example.com/Attachments", "Mail Attachments"),
        "Attachments (me@example.com)"
    );
    assert_eq!(
        MailAttachmentsScanner::display_name("/m/INBOX.mbox/Attachments", "Mail Attachments"),
        "Attachments (Mail Attachments)"
    );
    assert_eq!(MailAttachmentsScanner::display_name("/", "L"), "Attachments (L)");
    let found = run_scan(
        &scanner,
        &config(10),
        &vec![
            at_slot(0, dir("/m/a@b.c/Attachments", 20)),
            at_slot(1, dir("/d/Mail Downloads", 50)),
            at_slot(0, dir("/m/x/Attachments", 5)),
            at_slot(2, dir("/m/x/Attachments", 500)),
        ],
    );
    assert_eq!(ids(&found), vec!["mail_1", "mail_0"]);
    assert_eq!(found[0].name, "Mail Downloads (Mail Downloads)");
    assert_eq!(found[1].name, "Attachments (a@b.c)");
    assert_eq!(found[1].safety_level, SafetyLevel::Caution);
    assert!(scanner.is_available(&vec![false, true]));
    assert!(!scanner.is_available(&vec![false, false]));
}

#[test]
fn music_junk_by_place() {
    let scanner = MusicJunkScanner::with_home("/Users/u");
    assert_eq!(scanner.locations().len(), 9);
    let mut cfg = config(10);
    cfg.excluded_paths = vec!["/Users/u/Music".to_string()];
    let found = run_scan(
        &scanner,
        &cfg,
        &vec![
            at_slot(0, dir("/Users/u/Library/Caches/com.apple.Music", 10)),
            at_slot(4, dir("/Users/u/Library/Group Containers/243LU875E5.groups.com.apple.podcasts/Documents", 90)),
            at_slot(5, dir("/Users/u/Music/Music/Media.localized", 900)),
            at_slot(3, dir("/Users/u/Library/Caches/com.apple.iTunes", 9)),
        ],
    );
    assert_eq!(ids(&found), vec!["music_1", "music_0"]);
    assert_eq!(found[0].name, "Music - Podcasts Downloads");
    assert_eq!(found[0].safety_level, SafetyLevel::Caution);
    assert_eq!(found[1].name, "Music - Music Cache");
    assert_eq!(found[1].safety_level, SafetyLevel::Safe);
    assert_eq!(found[1].metadata.get("scanner_id").unwrap(), "music_junk");
    assert_eq!(scanner.name(), "Music & Podcasts");
}

#[test]
fn photo_junk_by_place() {
    let scanner = PhotoJunkScanner::with_home("/Users/u");
    assert_eq!(scanner.locations().len(), 6);
    assert_eq!(
        scanner.locations()[5].path,
        "/Users/u/Pictures/Photos Library.photoslibrary/database/search"
    );
    let found = run_scan(&scanner, &config(1), &vec![at_slot(0, dir("/p/thumbs", 7))]);
    assert_eq!(found[0].id, "photo_0");
    assert_eq!(found[0].name, "Photos - Thumbnails");
    assert_eq!(found[0].safety_level, SafetyLevel::Caution);
    assert_eq!(scanner.id(), "photo_junk");
}

#[test]
fn privacy_artifacts_by_place() {
    let scanner = PrivacyScanner::with_home("/Users/u");
    assert_eq!(scanner.locations().len(), 23);
    assert_eq!(scanner.category(), ScannerCategory::Browser);
    let found = run_scan(
        &scanner,
        &config(1),
        &vec![
            at_slot(5, file("/Users/u/Library/Application Support/Google/Chrome/Default/Login Data", 5)),
            at_slot(21, file("/Users/u/Library/Caches/com.apple.QuickLookDaemon/Cache.db", 50)),
            at_slot(1, file("/Users/u/Library/Safari/History.db", 20)),
        ],
    );
    assert_eq!(ids(&found), vec!["privacy_1", "privacy_2", "privacy_0"]);
    assert_eq!(found[0].name, "Quick Look Cache");
    assert_eq!(found[0].safety_level, SafetyLevel::Safe);
    assert_eq!(found[1].safety_level, SafetyLevel::Caution);
    assert_eq!(found[2].name, "Chrome Login Data");
    assert_eq!(found[2].safety_level, SafetyLevel::Protected);
    assert_eq!(found[2].file_count, 1);
    assert_eq!(found[2].category, ScannerCategory::Browser);
    assert!(PrivacyScanner::is_profile_file(&scanner.locations()[6].path));
    assert!(!PrivacyScanner::is_profile_file(&scanner.locations()[5].path));
    assert_eq!(
        PrivacyScanner::profile_file("/p/Firefox/Profiles/abc.default", &scanner.locations()[6].path),
        Some("/p/Firefox/Profiles/abc.default/cookies.sqlite".to_string())
    );
    assert_eq!(PrivacyScanner::profile_file("/p", "/"), None);
}

#[test]
fn maintenance_tasks_are_findings_with_commands() {
    let scanner = MaintenanceScanner::with_home("/Users/u");
    let found = scanner.scan();
    assert_eq!(found.len(), 10);
    assert_eq!(found[0].id, "maint_flush_dns");
    assert_eq!(found[0].name, "Flush DNS Cache");
    assert_eq!(found[0].size, 0);
    assert_eq!(found[0].file_count, 1);
    assert_eq!(found[0].path, "dscacheutil -flushcache && sudo killall -HUP mDNSResponder");
    assert_eq!(found[0].metadata.get("scanner_id").unwrap(), "maintenance");
    assert_eq!(found[0].metadata.get("task_id").unwrap(), "flush_dns");
    assert_eq!(found[0].metadata.get("command").unwrap(), &found[0].path);
    assert_eq!(found[0].metadata.get("requires_sudo").unwrap(), "true");
    assert_eq!(found[0].metadata.get("description").unwrap(), "Clear DNS cache to resolve network issues");
    assert_eq!(found[3].safety_level, SafetyLevel::Caution);
    assert_eq!(found[5].path, "rm -rf /tmp/* 2>/dev/null; rm -rf /Users/u/.tmp/* 2>/dev/null");
    assert_eq!(found[5].metadata.get("requires_sudo").unwrap(), "false");
    assert_eq!(found[9].id, "maint_reset_finder");
    assert_eq!(scanner.id(), "maintenance");
    assert_eq!(scanner.estimated_secs(), 1);
    assert!(scanner.is_available());
}

#[test]
fn finish_orders_what_was_streamed() {
    let scanner = CacheScanner::with_home("/Users/u");
    let cfg = config(0);
    let mut items = Vec::new();
    for c in [dir("/c/a", 1), dir("/c/b", 3), dir("/c/c", 2)] {
        if let Some(f) = scanner.accept(&cfg, &c, items.len()) {
            items.push(f);
        }
    }
    let found = finish(&scanner, items);
    assert_eq!(ids(&found), vec!["cache_1", "cache_2", "cache_0"]);
    assert!(any_exists(&vec![false, false, true]));
    assert!(!any_exists(&vec![]));
}
