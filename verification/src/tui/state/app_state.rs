//! All that the interactive tool holds.

use crate::collections::StringSet;
use crate::config::Config;
use crate::plugin::ScanReport;
use crate::uninstaller::AppBundle;
use crate::tui::service::scanner::ScannerKind;
use crate::tui::state::{
    AppMode, AppsModeState, CleanResultDisplay, ListState, ScanProgress, ScannerInfo, SortMode,
    SpaceLensState,
};
use vstd::prelude::*;

verus! {

/// The scanners that the tool offers: identity, name, and whether the
/// scanner is switched on from the start.
pub open spec fn offered_scanners() -> Seq<(Seq<char>, Seq<char>, bool)> {
    seq![
        ("system_caches"@, "System Caches"@, true),
        ("system_logs"@, "System Logs"@, true),
        ("trash"@, "Trash"@, true),
        ("browser_caches"@, "Browser Caches"@, true),
        ("dev_junk"@, "Development Junk"@, true),
        ("large_old_files"@, "Large & Old Files"@, true),
        ("mail_attachments"@, "Mail Attachments"@, true),
        ("photo_junk"@, "Photo Junk"@, true),
        ("music_junk"@, "Music & Podcasts"@, true),
        ("duplicates"@, "Duplicates"@, false),
        ("privacy"@, "Privacy"@, false),
        ("maintenance"@, "Maintenance"@, false),
        ("startup_items"@, "Startup Items"@, false),
    ]
}

/// Identity, name and switch of each scanner of `scanners`.
pub open spec fn scanner_rows(scanners: Seq<ScannerInfo>) -> Seq<(Seq<char>, Seq<char>, bool)> {
    scanners.map_values(|s: ScannerInfo| (s.id@, s.name@, s.enabled))
}

fn scanner(id: &str, name: &str, enabled: bool) -> (r: ScannerInfo)
    ensures
        r.id@ == id@,
        r.name@ == name@,
        r.enabled == enabled,
{
    ScannerInfo { id: String::from_str(id), name: String::from_str(name), enabled }
}

/// The scanners that the tool offers, as they are at the start.
pub fn available_scanners() -> (r: Vec<ScannerInfo>)
    ensures
        scanner_rows(r@) == offered_scanners(),
{
    let mut r: Vec<ScannerInfo> = Vec::new();
    r.push(scanner("system_caches", "System Caches", true));
    r.push(scanner("system_logs", "System Logs", true));
    r.push(scanner("trash", "Trash", true));
    r.push(scanner("browser_caches", "Browser Caches", true));
    r.push(scanner("dev_junk", "Development Junk", true));
    r.push(scanner("large_old_files", "Large & Old Files", true));
    r.push(scanner("mail_attachments", "Mail Attachments", true));
    r.push(scanner("photo_junk", "Photo Junk", true));
    r.push(scanner("music_junk", "Music & Podcasts", true));
    r.push(scanner("duplicates", "Duplicates", false));
    r.push(scanner("privacy", "Privacy", false));
    r.push(scanner("maintenance", "Maintenance", false));
    r.push(scanner("startup_items", "Startup Items", false));
    assert(scanner_rows(r@) =~= offered_scanners());
    r
}

/// Every scanner that is offered can be run: its identity is that of a
/// scanner which a session knows.
pub proof fn lemma_offered_scanners_are_known()
    ensures
        offered_scanners().len() == ScannerKind::every().len(),
        forall|i: int|
            0 <= i < offered_scanners().len() ==> (#[trigger] offered_scanners()[i]).0
                == ScannerKind::every()[i].key(),
{
}

/// The identities of the scanners of `scanners` that are switched on, in
/// their order.
pub open spec fn enabled_ids(scanners: Seq<ScannerInfo>) -> Seq<Seq<char>> {
    crate::search::collect(
        scanners,
        |s: ScannerInfo|
            if s.enabled {
                Some(s.id@)
            } else {
                None
            },
    )
}

/// The identities of the scanners that are switched on.
pub fn enabled_scanner_ids(scanners: &Vec<ScannerInfo>) -> (r: Vec<String>)
    ensures
        crate::plugin::traits::texts(r@) == enabled_ids(scanners@),
{
    let ghost pick = |s: ScannerInfo|
        if s.enabled {
            Some(s.id@)
        } else {
            None
        };
    let mut r: Vec<String> = Vec::new();
    let mut i: usize = 0;
    assert(crate::plugin::traits::texts(r@) =~= crate::search::collect(scanners@.take(0), pick));
    while i < scanners.len()
        invariant
            i <= scanners@.len(),
            pick == |s: ScannerInfo|
                if s.enabled {
                    Some(s.id@)
                } else {
                    None
                },
            crate::plugin::traits::texts(r@) == crate::search::collect(
                scanners@.take(i as int),
                pick,
            ),
        decreases scanners.len() - i,
    {
        proof {
            assert(scanners@.take(i + 1).drop_last() == scanners@.take(i as int));
        }
        let ghost before = r@;
        if scanners[i].enabled {
            r.push(scanners[i].id.clone());
            assert(crate::plugin::traits::texts(r@) =~= crate::plugin::traits::texts(before).push(
                scanners@[i as int].id@,
            ));
        }
        i += 1;
    }
    assert(scanners@.take(scanners@.len() as int) == scanners@);
    r
}

/// The interactive tool's state.
pub struct App {
    pub config: Config,
    pub report: Option<ScanReport>,
    pub selected_category: usize,
    pub selected_items: StringSet,
    pub list_state: ListState,
    pub mode: AppMode,
    pub prev_mode: Option<AppMode>,
    pub should_quit: bool,
    pub scan_progress: ScanProgress,
    pub clean_result: Option<CleanResultDisplay>,
    pub apps_mode: AppsModeState,
    pub available_scanners: Vec<ScannerInfo>,
    pub sort_mode: SortMode,
    pub space_lens: SpaceLensState,
}

impl App {
    /// The tool as it starts: on the screen that selects the scanners, with
    /// the cursor on the first, no report and nothing selected.
    pub fn new(config: Config) -> (r: Self)
        ensures
            r.config == config,
            r.report is None,
            r.selected_category == 0,
            r.selected_items@ == Set::<Seq<char>>::empty(),
            r.list_state.cursor() == Some(0usize),
            r.mode == AppMode::CategorySelect,
            r.prev_mode is None,
            !r.should_quit,
            r.clean_result is None,
            scanner_rows(r.available_scanners@) == offered_scanners(),
            r.sort_mode == SortMode::SizeDesc,
            r.space_lens@ == crate::tui::state::space_lens::SpaceLensView::initial(),
    {
        let mut list_state = ListState::new();
        list_state.select(Some(0));
        App {
            config,
            report: None,
            selected_category: 0,
            selected_items: StringSet::new(),
            list_state,
            mode: AppMode::CategorySelect,
            prev_mode: None,
            should_quit: false,
            scan_progress: ScanProgress::default(),
            clean_result: None,
            apps_mode: AppsModeState::default(),
            available_scanners: available_scanners(),
            sort_mode: SortMode::default(),
            space_lens: SpaceLensState::default(),
        }
    }

    /// The tool as it starts on the list of the installed applications
    /// `apps`: with the cursor on the first, if there is one, and no size
    /// measured yet.
    pub fn new_apps_mode(apps: Vec<AppBundle>) -> (r: Self)
        ensures
            r.mode == AppMode::AppList,
            r.apps_mode.apps == apps,
            r.apps_mode.app_sizes@ == Map::<usize, u64>::empty(),
            r.apps_mode.selected_app_idx is None,
            r.apps_mode.selected_related@ == Set::<usize>::empty(),
            r.apps_mode.uninstall_result is None,
            r.apps_mode.cached_related_files@.len() == 0,
            r.list_state.cursor() == if apps@.len() > 0 {
                Some(0usize)
            } else {
                None
            },
            r.report is None,
            r.selected_items@ == Set::<Seq<char>>::empty(),
            r.prev_mode is None,
            !r.should_quit,
            r.clean_result is None,
    {
        let mut app = App::new(Config::default());
        let mut list_state = ListState::new();
        if apps.len() > 0 {
            list_state.select(Some(0));
        }
        app.list_state = list_state;
        app.mode = AppMode::AppList;
        let mut apps_mode = AppsModeState::default();
        apps_mode.apps = apps;
        app.apps_mode = apps_mode;
        app
    }
}

} // verus!
