use cleanx::tui::service::disk::{
    apply_entry, cache_current_if_needed, file_entry, get_active_threads, path_is_excluded,
    plan_scan, poll_space_sizes, remove_entry, scan_closed, start_space_scan, walk_enters,
    ActiveThreads, ChildInfo, PoolBucket, ScanEvent, ScanJob, ScanStart, WalkTotal, WorkItem,
};
use cleanx::tui::state::{CachedScan, FolderEntry, SpaceLensState};

const MB: u64 = 1024 * 1024;

fn child(path: &str, is_dir: bool) -> ChildInfo {
    ChildInfo { path: path.to_string(), is_dir, is_symlink: false, is_mount: false }
}

fn entry(name: &str, path: &str, size: u64, is_dir: bool, scanning: bool) -> FolderEntry {
    FolderEntry { name: name.to_string(), path: path.to_string(), size, is_dir, scanning }
}

fn update(scan_path: &str, e: FolderEntry) -> ScanEvent {
    ScanEvent::Update { scan_path: scan_path.to_string(), entry: e }
}

fn browse(path: &str) -> SpaceLensState {
    let mut state = SpaceLensState::default();
    state.current_path = path.to_string();
    state
}

/// Runs the whole scan of `/data` with a 10 MB file `A`, an empty directory
/// `B` and a directory `C` with two 5 MB files.
fn scan_data(state: &mut SpaceLensState) {
    assert_eq!(start_space_scan(state), ScanStart::ListDirectory);
    let children = vec![child("/data/A", false), child("/data/B", true), child("/data/C", true)];
    let plan = plan_scan(state, &children);
    let mut events = Vec::new();
    for p in plan.placeholders {
        events.push(update("/data", p));
    }
    for w in plan.work {
        match w {
            WorkItem::SizeFile(job) => {
                assert_eq!(job.path, "/data/A");
                events.push(update("/data", file_entry(job, 10 * MB)));
            }
            WorkItem::Submit(job) => {
                let files: Vec<u64> = if job.path == "/data/C" { vec![5 * MB, 5 * MB] } else { vec![] };
                let mut walk = WalkTotal::new(job);
                for len in files {
                    events.push(update("/data", walk.add_file(len)));
                }
                events.push(update("/data", walk.finish()));
            }
            WorkItem::Reuse(_) => panic!("nothing is cached yet"),
        }
    }
    events.push(ScanEvent::Closed { scan_path: "/data".to_string() });
    poll_space_sizes(state, events);
}

#[test]
fn scan_of_a_directory_with_three_children() {
    let mut state = browse("/data");
    scan_data(&mut state);
    assert!(!state.loading);
    assert_eq!(state.total_size, 20 * MB);
    assert_eq!(state.entries.len(), 3);
    let a = state.entries.iter().find(|e| e.name == "A").unwrap();
    assert_eq!((a.size, a.is_dir, a.scanning), (10 * MB, false, false));
    let b = state.entries.iter().find(|e| e.name == "B").unwrap();
    assert_eq!((b.size, b.is_dir, b.scanning), (0, true, false));
    let c = state.entries.iter().find(|e| e.name == "C").unwrap();
    assert_eq!((c.size, c.is_dir, c.scanning), (10 * MB, true, false));
    // largest first; equal sizes in the order of the listing
    let names: Vec<&str> = state.entries.iter().map(|e| e.name.as_str()).collect();
    assert_eq!(names, vec!["A", "C", "B"]);
    assert!(!state.pending_scans.contains("/data"));
    let cached = state.cache.get("/data").unwrap();
    assert!(!cached.was_loading);
    assert_eq!(cached.total_size, 20 * MB);
    assert_eq!(cached.entries.len(), 3);
}

#[test]
fn placeholders_and_work_of_a_fresh_scan() {
    let mut state = browse("/data");
    assert_eq!(start_space_scan(&mut state), ScanStart::ListDirectory);
    assert!(state.loading);
    assert!(state.pending_scans.contains("/data"));
    let mut link = child("/data/L", true);
    link.is_symlink = true;
    let mut mount = child("/data/M", true);
    mount.is_mount = true;
    let children = vec![
        child("/data/A", false),
        link,
        mount,
        child("/Volumes/Disk", true),
        child("/data/C", true),
    ];
    let plan = plan_scan(&state, &children);
    assert_eq!(plan.placeholders.len(), 2);
    assert_eq!(plan.placeholders[0].name, "A");
    assert_eq!(plan.placeholders[0].size, 0);
    assert!(plan.placeholders[0].scanning);
    assert!(!plan.placeholders[0].is_dir);
    assert_eq!(plan.placeholders[1].path, "/data/C");
    assert!(plan.placeholders[1].is_dir);
    assert_eq!(plan.work.len(), 2);
    assert!(matches!(&plan.work[0], WorkItem::SizeFile(j) if j.name == "A" && !j.is_dir));
    assert!(matches!(&plan.work[1], WorkItem::Submit(j) if j.path == "/data/C" && j.is_dir));
}

#[test]
fn reentering_a_complete_directory_uses_the_snapshot() {
    let mut state = browse("/data");
    scan_data(&mut state);
    let before: Vec<(String, u64, bool)> =
        state.entries.iter().map(|e| (e.path.clone(), e.size, e.scanning)).collect();
    // leave and come back
    cache_current_if_needed(&mut state);
    state.current_path = "/".to_string();
    state.entries.clear();
    state.total_size = 0;
    state.current_path = "/data".to_string();
    assert_eq!(start_space_scan(&mut state), ScanStart::UseCache);
    assert!(!state.loading);
    assert!(!state.pending_scans.contains("/data"));
    let after: Vec<(String, u64, bool)> =
        state.entries.iter().map(|e| (e.path.clone(), e.size, e.scanning)).collect();
    assert_eq!(before, after);
    assert_eq!(state.total_size, 20 * MB);
    // and once more
    assert_eq!(start_space_scan(&mut state), ScanStart::UseCache);
    assert_eq!(state.entries.len(), 3);
}

#[test]
fn a_snapshot_taken_while_loading_is_resumed() {
    let mut state = browse("/data");
    assert_eq!(start_space_scan(&mut state), ScanStart::ListDirectory);
    apply_entry(&mut state, "/data", entry("A", "/data/A", 10, false, false));
    apply_entry(&mut state, "/data", entry("C", "/data/C", 4, true, true));
    cache_current_if_needed(&mut state);
    assert!(state.cache.get("/data").unwrap().was_loading);
    // the sender of the old scan went away
    scan_closed(&mut state, "/other");
    state.pending_scans.remove("/data");
    // come back: only what is not complete is computed again
    assert_eq!(start_space_scan(&mut state), ScanStart::ListDirectory);
    assert_eq!(state.entries.len(), 2);
    let plan = plan_scan(&state, &vec![child("/data/A", false), child("/data/C", true)]);
    assert_eq!(plan.placeholders.len(), 1);
    assert_eq!(plan.placeholders[0].path, "/data/C");
    assert_eq!(plan.work.len(), 1);
    assert!(matches!(&plan.work[0], WorkItem::Submit(j) if j.path == "/data/C"));
    // a file whose size is not final yet is read again
    let plan = plan_scan(&state, &vec![child("/data/A", false), child("/data/D", false)]);
    assert_eq!(plan.work.len(), 1);
    assert!(matches!(&plan.work[0], WorkItem::SizeFile(j) if j.path == "/data/D"));
}

#[test]
fn a_running_scan_is_not_started_twice() {
    let mut state = browse("/data");
    assert_eq!(start_space_scan(&mut state), ScanStart::ListDirectory);
    assert_eq!(start_space_scan(&mut state), ScanStart::AlreadyScanning);
    assert!(state.loading);
}

#[test]
fn single_mode_drops_the_scans_of_other_directories() {
    let mut state = browse("/data");
    state.parallel_scan = false;
    state.pending_scans.insert("/elsewhere".to_string());
    assert_eq!(start_space_scan(&mut state), ScanStart::ListDirectory);
    assert!(state.pending_scans.contains("/data"));
    assert!(!state.pending_scans.contains("/elsewhere"));
    assert_eq!(state.pending_scans.len(), 1);
}

#[test]
fn the_size_of_a_finished_child_scan_is_reused() {
    let mut state = browse("/data");
    state.cache.insert(
        "/data/C".to_string(),
        CachedScan { entries: Vec::new(), total_size: 77, was_loading: false },
    );
    state.cache.insert(
        "/data/D".to_string(),
        CachedScan { entries: Vec::new(), total_size: 5, was_loading: true },
    );
    start_space_scan(&mut state);
    let plan = plan_scan(&state, &vec![child("/data/C", true), child("/data/D", true)]);
    assert_eq!(plan.placeholders.len(), 2);
    match &plan.work[0] {
        WorkItem::Reuse(e) => {
            assert_eq!((e.path.as_str(), e.size, e.scanning, e.is_dir), ("/data/C", 77, false, true));
        }
        other => panic!("{:?}", other),
    }
    assert!(matches!(&plan.work[1], WorkItem::Submit(j) if j.path == "/data/D"));
}

#[test]
fn updates_of_another_directory_are_dropped() {
    let mut state = browse("/data");
    start_space_scan(&mut state);
    apply_entry(&mut state, "/other", entry("X", "/other/X", 9, false, false));
    assert!(state.entries.is_empty());
    assert_eq!(state.total_size, 0);
    state.pending_scans.insert("/other".to_string());
    scan_closed(&mut state, "/other");
    assert!(state.loading);
    assert!(!state.pending_scans.contains("/other"));
    assert!(state.cache.get("/other").is_none());
    assert!(state.cache.get("/data").is_none());
}

#[test]
fn the_size_shown_never_falls_while_scanning_and_the_final_update_decides() {
    let mut state = browse("/data");
    start_space_scan(&mut state);
    apply_entry(&mut state, "/data", entry("C", "/data/C", 50, true, true));
    // a placeholder or a scan that began again does not take the size back
    apply_entry(&mut state, "/data", entry("C", "/data/C", 0, true, true));
    apply_entry(&mut state, "/data", entry("C", "/data/C", 20, true, true));
    assert_eq!(state.entries[0].size, 50);
    assert_eq!(state.total_size, 50);
    apply_entry(&mut state, "/data", entry("C", "/data/C", 70, true, true));
    assert_eq!(state.entries[0].size, 70);
    // the final update is the size, also where it is smaller
    apply_entry(&mut state, "/data", entry("C", "/data/C", 5, true, false));
    assert_eq!(state.entries[0].size, 5);
    assert!(!state.entries[0].scanning);
    assert_eq!(state.total_size, 5);
    apply_entry(&mut state, "/data", entry("C", "/data/C", 0, true, false));
    assert_eq!(state.entries[0].size, 0);
    assert_eq!(state.total_size, 0);
    apply_entry(&mut state, "/data", entry("B", "/data/B", 0, true, true));
    apply_entry(&mut state, "/data", entry("B", "/data/B", 0, true, false));
    assert_eq!(state.entries.len(), 2);
    assert_eq!(state.entries[1].size, 0);
    assert!(!state.entries[1].scanning);
}

#[test]
fn walk_total_never_goes_down() {
    let job = ScanJob { path: "/data/C".to_string(), name: "C".to_string(), is_dir: true };
    let mut walk = WalkTotal::new(job);
    let mut last = 0;
    for len in [3u64, 0, 10, u64::MAX, 4] {
        let u = walk.add_file(len);
        assert!(u.size >= last);
        assert!(u.scanning);
        assert_eq!(u.name, "C");
        last = u.size;
    }
    assert_eq!(last, u64::MAX);
    let done = walk.finish();
    assert!(!done.scanning);
    assert_eq!(done.size, u64::MAX);
    assert_eq!(done.path, "/data/C");
    assert!(done.is_dir);
}

#[test]
fn walk_total_adds_up() {
    let job = ScanJob { path: "/p".to_string(), name: "p".to_string(), is_dir: true };
    let mut walk = WalkTotal::new(job);
    assert_eq!(walk.add_file(5).size, 5);
    assert_eq!(walk.add_file(7).size, 12);
    assert_eq!(walk.finish().size, 12);
}

#[test]
fn deleting_an_entry_updates_listing_total_and_cache() {
    let mut state = browse("/data");
    scan_data(&mut state);
    assert!(state.cache.contains_key("/data"));
    remove_entry(&mut state, "/data/A");
    let names: Vec<&str> = state.entries.iter().map(|e| e.name.as_str()).collect();
    assert_eq!(names, vec!["C", "B"]);
    assert_eq!(state.total_size, 10 * MB);
    assert!(!state.cache.contains_key("/data"));
    // the next visit scans anew
    assert_eq!(start_space_scan(&mut state), ScanStart::ListDirectory);
}

#[test]
fn leaving_keeps_the_listing_as_it_stands() {
    let mut state = browse("/data");
    state.entries.push(entry("A", "/data/A", 1, false, false));
    state.total_size = 1;
    state.loading = true;
    cache_current_if_needed(&mut state);
    let snap = state.cache.get("/data").unwrap();
    assert!(snap.was_loading);
    assert_eq!(snap.total_size, 1);
    assert_eq!(snap.entries.len(), 1);
    // the scan went on: the newer listing takes the place of the older
    state.entries.push(entry("B", "/data/B", 98, true, false));
    state.total_size = 99;
    state.loading = false;
    cache_current_if_needed(&mut state);
    let snap = state.cache.get("/data").unwrap();
    assert!(!snap.was_loading);
    assert_eq!(snap.total_size, 99);
    assert_eq!(snap.entries.len(), 2);
    assert_eq!(state.entries.len(), 2);
    assert_eq!(state.total_size, 99);
    // an empty listing that a scan is still filling is kept as such
    let mut fresh = browse("/new");
    fresh.loading = true;
    cache_current_if_needed(&mut fresh);
    assert!(fresh.cache.get("/new").unwrap().was_loading);
    assert!(fresh.cache.get("/new").unwrap().entries.is_empty());
}

#[test]
fn an_empty_directory_is_shown_from_its_snapshot() {
    let mut state = browse("/data/B");
    assert_eq!(start_space_scan(&mut state), ScanStart::ListDirectory);
    assert!(plan_scan(&state, &Vec::new()).work.is_empty());
    scan_closed(&mut state, "/data/B");
    assert!(!state.loading);
    let snap = state.cache.get("/data/B").unwrap();
    assert!(snap.entries.is_empty() && !snap.was_loading);
    // leave and come back: the complete snapshot is kept and used
    cache_current_if_needed(&mut state);
    let snap = state.cache.get("/data/B").unwrap();
    assert!(snap.entries.is_empty() && !snap.was_loading);
    assert_eq!(snap.total_size, 0);
    assert_eq!(start_space_scan(&mut state), ScanStart::UseCache);
    assert!(state.entries.is_empty());
    assert!(!state.loading);
}

#[test]
fn the_listing_left_after_a_deletion_is_kept_too() {
    let mut state = browse("/data");
    start_space_scan(&mut state);
    apply_entry(&mut state, "/data", entry("A", "/data/A", 7, false, false));
    scan_closed(&mut state, "/data");
    remove_entry(&mut state, "/data/A");
    assert!(state.entries.is_empty());
    assert!(!state.cache.contains_key("/data"));
    // a visit that follows at once lists the directory anew
    let mut at_once = browse("/data");
    assert_eq!(start_space_scan(&mut at_once), ScanStart::ListDirectory);
    // leaving keeps what is shown, as for every listing
    cache_current_if_needed(&mut state);
    let snap = state.cache.get("/data").unwrap();
    assert!(snap.entries.is_empty() && !snap.was_loading);
    assert_eq!(snap.total_size, 0);
}

#[test]
fn excluded_subtrees() {
    assert!(path_is_excluded("/Volumes/Backup/x"));
    assert!(path_is_excluded("/System/Volumes/Data"));
    assert!(path_is_excluded("/dev"));
    assert!(path_is_excluded("/.vol/123"));
    assert!(!path_is_excluded("/Volumes2/x"));
    assert!(!path_is_excluded("/System/Library"));
    assert!(!path_is_excluded("/Users/me/Volumes"));
    assert!(walk_enters("/Users/me", false));
    assert!(!walk_enters("/Users/me", true));
    assert!(!walk_enters("/dev/disk0", false));
}

#[test]
fn pools_by_requested_thread_count() {
    let expected = [(0, 16), (1, 4), (4, 4), (5, 8), (8, 8), (9, 16), (64, 16)];
    for (asked, threads) in expected {
        assert_eq!(PoolBucket::for_size(asked).threads(), threads, "asked {}", asked);
    }
    let active = ActiveThreads { small: 1, medium: 2, large: 3 };
    assert_eq!(get_active_threads(&active, 2), 1);
    assert_eq!(get_active_threads(&active, 8), 2);
    assert_eq!(get_active_threads(&active, 0), 3);
    assert_eq!(get_active_threads(&active, 100), 3);
}
