//! The category scan: which scanners a session runs, what a rescan does to
//! the report that is there, and what each message of the running scanners
//! does to report and progress.
//!
//! Worker threads and channels are the caller's part. It submits one job for
//! each scanner of the session, hands the messages it drains to
//! [`poll_scan_messages`], and sends the session's last message once
//! [`all_finished`] says so.

use crate::config::Config;
use crate::plugin::registry::{
    add_clamped_usize, clamp_usize, id_listed, lemma_totals_push, lemma_totals_update,
    position_of, report_items, report_size, sum_sizes, with_item, with_scanner_done,
    without_scanners, CategoryView, ReportView,
};
use crate::scanner::{
    BrowserCacheScanner, CacheScanner, DevJunkScanner, LargeOldFilesScanner, LogScanner,
    MailAttachmentsScanner, MusicJunkScanner, PhotoJunkScanner, PrivacyScanner, Scanner,
    TrashScanner,
};
use crate::search::{lemma_first_match, lemma_first_match_is};
use crate::plugin::traits::texts;
use crate::plugin::{ScanConfig, ScanReport, ScanResult, ScanResultView, ScannerCategory};
use crate::sorting::views;
use crate::tui::state::{
    AppMode, ListState, ScanMessage, ScanMessageView, ScanProgress, ScanProgressView,
};
use vstd::prelude::*;

verus! {

/// Number of worker threads that run scanners.
pub const DEFAULT_POOL_SIZE: usize = 4;

/// The scanners that a session can run.
#[derive(Debug, Clone, Copy, PartialEq, Eq, Structural)]
pub enum ScannerKind {
    SystemCaches,
    SystemLogs,
    Trash,
    BrowserCaches,
    DevJunk,
    LargeOldFiles,
    MailAttachments,
    PhotoJunk,
    MusicJunk,
    Duplicates,
    Privacy,
    Maintenance,
    StartupItems,
}

impl ScannerKind {
    /// The identity under which the scanner is switched on.
    pub open spec fn key(self) -> Seq<char> {
        match self {
            ScannerKind::SystemCaches => "system_caches"@,
            ScannerKind::SystemLogs => "system_logs"@,
            ScannerKind::Trash => "trash"@,
            ScannerKind::BrowserCaches => "browser_caches"@,
            ScannerKind::DevJunk => "dev_junk"@,
            ScannerKind::LargeOldFiles => "large_old_files"@,
            ScannerKind::MailAttachments => "mail_attachments"@,
            ScannerKind::PhotoJunk => "photo_junk"@,
            ScannerKind::MusicJunk => "music_junk"@,
            ScannerKind::Duplicates => "duplicates"@,
            ScannerKind::Privacy => "privacy"@,
            ScannerKind::Maintenance => "maintenance"@,
            ScannerKind::StartupItems => "startup_items"@,
        }
    }

    /// The kind of storage the scanner looks at.
    pub open spec fn group(self) -> ScannerCategory {
        match self {
            ScannerKind::Trash => ScannerCategory::Trash,
            ScannerKind::BrowserCaches => ScannerCategory::Browser,
            ScannerKind::Privacy => ScannerCategory::Browser,
            ScannerKind::DevJunk => ScannerCategory::Development,
            _ => ScannerCategory::System,
        }
    }

    /// The identity under which the scanner reports its findings.
    pub open spec fn ident(self) -> Seq<char> {
        match self {
            ScannerKind::BrowserCaches => "browser_cache"@,
            _ => self.key(),
        }
    }

    /// The scanner's name as it is shown.
    pub open spec fn title(self) -> Seq<char> {
        match self {
            ScannerKind::SystemCaches => "System Caches"@,
            ScannerKind::SystemLogs => "System Logs"@,
            ScannerKind::Trash => "Trash"@,
            ScannerKind::BrowserCaches => "Browser Caches"@,
            ScannerKind::DevJunk => "Development Junk"@,
            ScannerKind::LargeOldFiles => "Large & Old Files"@,
            ScannerKind::MailAttachments => "Mail Attachments"@,
            ScannerKind::PhotoJunk => "Photo Junk"@,
            ScannerKind::MusicJunk => "Music & Podcasts"@,
            ScannerKind::Duplicates => "Duplicates"@,
            ScannerKind::Privacy => "Privacy"@,
            ScannerKind::Maintenance => "Maintenance"@,
            ScannerKind::StartupItems => "Startup Items"@,
        }
    }

    /// All scanners, in the order in which a session submits them.
    pub open spec fn every() -> Seq<ScannerKind> {
        seq![
            ScannerKind::SystemCaches,
            ScannerKind::SystemLogs,
            ScannerKind::Trash,
            ScannerKind::BrowserCaches,
            ScannerKind::DevJunk,
            ScannerKind::LargeOldFiles,
            ScannerKind::MailAttachments,
            ScannerKind::PhotoJunk,
            ScannerKind::MusicJunk,
            ScannerKind::Duplicates,
            ScannerKind::Privacy,
            ScannerKind::Maintenance,
            ScannerKind::StartupItems,
        ]
    }

    /// The identity under which the scanner is switched on.
    pub fn id(self) -> (r: &'static str)
        ensures
            r@ == self.key(),
    {
        match self {
            ScannerKind::SystemCaches => "system_caches",
            ScannerKind::SystemLogs => "system_logs",
            ScannerKind::Trash => "trash",
            ScannerKind::BrowserCaches => "browser_caches",
            ScannerKind::DevJunk => "dev_junk",
            ScannerKind::LargeOldFiles => "large_old_files",
            ScannerKind::MailAttachments => "mail_attachments",
            ScannerKind::PhotoJunk => "photo_junk",
            ScannerKind::MusicJunk => "music_junk",
            ScannerKind::Duplicates => "duplicates",
            ScannerKind::Privacy => "privacy",
            ScannerKind::Maintenance => "maintenance",
            ScannerKind::StartupItems => "startup_items",
        }
    }

    /// The identity under which the scanner reports its findings.
    pub fn scanner_id(self) -> (r: &'static str)
        ensures
            r@ == self.ident(),
    {
        match self {
            ScannerKind::BrowserCaches => "browser_cache",
            _ => self.id(),
        }
    }

    /// The scanner's name as it is shown.
    pub fn name(self) -> (r: &'static str)
        ensures
            r@ == self.title(),
    {
        match self {
            ScannerKind::SystemCaches => "System Caches",
            ScannerKind::SystemLogs => "System Logs",
            ScannerKind::Trash => "Trash",
            ScannerKind::BrowserCaches => "Browser Caches",
            ScannerKind::DevJunk => "Development Junk",
            ScannerKind::LargeOldFiles => "Large & Old Files",
            ScannerKind::MailAttachments => "Mail Attachments",
            ScannerKind::PhotoJunk => "Photo Junk",
            ScannerKind::MusicJunk => "Music & Podcasts",
            ScannerKind::Duplicates => "Duplicates",
            ScannerKind::Privacy => "Privacy",
            ScannerKind::Maintenance => "Maintenance",
            ScannerKind::StartupItems => "Startup Items",
        }
    }

    /// The kind of storage the scanner looks at.
    pub fn category(self) -> (r: ScannerCategory)
        ensures
            r == self.group(),
    {
        match self {
            ScannerKind::Trash => ScannerCategory::Trash,
            ScannerKind::BrowserCaches => ScannerCategory::Browser,
            ScannerKind::Privacy => ScannerCategory::Browser,
            ScannerKind::DevJunk => ScannerCategory::Development,
            _ => ScannerCategory::System,
        }
    }

    /// All scanners, in the order in which a session submits them.
    pub fn all() -> (r: Vec<ScannerKind>)
        ensures
            r@ == ScannerKind::every(),
    {
        let mut r: Vec<ScannerKind> = Vec::new();
        r.push(ScannerKind::SystemCaches);
        r.push(ScannerKind::SystemLogs);
        r.push(ScannerKind::Trash);
        r.push(ScannerKind::BrowserCaches);
        r.push(ScannerKind::DevJunk);
        r.push(ScannerKind::LargeOldFiles);
        r.push(ScannerKind::MailAttachments);
        r.push(ScannerKind::PhotoJunk);
        r.push(ScannerKind::MusicJunk);
        r.push(ScannerKind::Duplicates);
        r.push(ScannerKind::Privacy);
        r.push(ScannerKind::Maintenance);
        r.push(ScannerKind::StartupItems);
        assert(r@ =~= ScannerKind::every());
        r
    }
}

/// Each kind stands for the scanner of its name: the two agree on the
/// identity under which findings are reported, on the name that is shown and
/// on the category.
pub proof fn lemma_kinds_name_their_scanners(
    caches: CacheScanner,
    logs: LogScanner,
    trash: TrashScanner,
    browser: BrowserCacheScanner,
    dev: DevJunkScanner,
    large: LargeOldFilesScanner,
    mail: MailAttachmentsScanner,
    photo: PhotoJunkScanner,
    music: MusicJunkScanner,
    privacy: PrivacyScanner,
)
    ensures
        names(ScannerKind::SystemCaches) == (caches.ident(), caches.title(), caches.group()),
        names(ScannerKind::SystemLogs) == (logs.ident(), logs.title(), logs.group()),
        names(ScannerKind::Trash) == (trash.ident(), trash.title(), trash.group()),
        names(ScannerKind::BrowserCaches) == (browser.ident(), browser.title(), browser.group()),
        names(ScannerKind::DevJunk) == (dev.ident(), dev.title(), dev.group()),
        names(ScannerKind::LargeOldFiles) == (large.ident(), large.title(), large.group()),
        names(ScannerKind::MailAttachments) == (mail.ident(), mail.title(), mail.group()),
        names(ScannerKind::PhotoJunk) == (photo.ident(), photo.title(), photo.group()),
        names(ScannerKind::MusicJunk) == (music.ident(), music.title(), music.group()),
        names(ScannerKind::Privacy) == (privacy.ident(), privacy.title(), privacy.group()),
{
}

/// Identity, name and category of the scanner that `kind` stands for.
pub open spec fn names(kind: ScannerKind) -> (Seq<char>, Seq<char>, ScannerCategory) {
    (kind.ident(), kind.title(), kind.group())
}

/// The scanners whose identity is one of `ids`, in the order of submission.
pub open spec fn selected(ids: Seq<Seq<char>>) -> Seq<ScannerKind> {
    ScannerKind::every().filter(|k: ScannerKind| ids.contains(k.key()))
}

/// What a scan session runs.
#[derive(Debug)]
pub struct ScanSession {
    /// The settings that every scanner of the session gets.
    pub config: ScanConfig,
    /// The scanners to submit, one job each, in this order.
    pub scanners: Vec<ScannerKind>,
}

/// The progress at the start of a session over `total` enabled scanners.
pub open spec fn fresh_progress(total: usize) -> ScanProgressView {
    ScanProgressView {
        current_scanner: "Initializing..."@,
        current_path: None,
        scanners_done: 0,
        total_scanners: total,
        active_scanners: 0,
    }
}

/// The report at the start of a session that rescans the scanners `ids`: the
/// groups of those scanners are gone, every other group is as it was; without
/// a report a new, empty one begins.
pub open spec fn report_at_start(before: Option<ReportView>, ids: Seq<Seq<char>>) -> ReportView {
    match before {
        Some(r) => ReportView { categories: without_scanners(r.categories, ids), ..r },
        None => ReportView::empty(),
    }
}

/// The view of a report that may be absent.
pub open spec fn report_view(report: Option<ScanReport>) -> Option<ReportView> {
    match report {
        Some(r) => Some(r@),
        None => None,
    }
}

/// Begins a scan session over the scanners `enabled_scanner_ids`. Without any
/// enabled scanner nothing happens and there is no session.
pub fn start_scan(
    config: &Config,
    enabled_scanner_ids: &Vec<String>,
    report: &mut Option<ScanReport>,
    scan_progress: &mut ScanProgress,
    mode: &mut AppMode,
) -> (session: Option<ScanSession>)
    ensures
        enabled_scanner_ids@.len() == 0 ==> {
            &&& session is None
            &&& report_view(*final(report)) == report_view(*old(report))
            &&& final(scan_progress)@ == old(scan_progress)@
            &&& *final(mode) == *old(mode)
        },
        enabled_scanner_ids@.len() > 0 ==> {
            &&& session is Some
            &&& session->0.scanners@ == selected(texts(enabled_scanner_ids@))
            &&& session->0.config.min_size == config.scan.min_size_bytes
            &&& session->0.config.max_depth == config.scan.max_depth
            &&& session->0.config.excluded_paths@ == config.scan.excluded_paths@
            &&& report_view(*final(report)) == Some(
                report_at_start(report_view(*old(report)), texts(enabled_scanner_ids@)),
            )
            &&& final(scan_progress)@ == fresh_progress(enabled_scanner_ids@.len() as usize)
            &&& *final(mode) == AppMode::Review
        },
{
    if enabled_scanner_ids.len() == 0 {
        return None;
    }
    match report {
        Some(r) => {
            r.remove_categories(enabled_scanner_ids);
        },
        None => {
            *report = Some(ScanReport::new());
        },
    }
    *scan_progress = ScanProgress {
        current_scanner: String::from_str("Initializing..."),
        current_path: None,
        scanners_done: 0,
        total_scanners: enabled_scanner_ids.len(),
        active_scanners: 0,
    };
    *mode = AppMode::Review;

    let ghost ids = texts(enabled_scanner_ids@);
    let ghost wanted = |k: ScannerKind| ids.contains(k.key());
    let all = ScannerKind::all();
    let mut scanners: Vec<ScannerKind> = Vec::new();
    let mut i: usize = 0;
    proof {
        reveal(Seq::filter);
        assert(all@.take(0).filter(wanted) =~= scanners@);
    }
    while i < all.len()
        invariant
            i <= all@.len(),
            ids == texts(enabled_scanner_ids@),
            wanted == |k: ScannerKind| ids.contains(k.key()),
            scanners@ == all@.take(i as int).filter(wanted),
        decreases all.len() - i,
    {
        proof {
            reveal(Seq::filter);
            assert(all@.take(i + 1).drop_last() == all@.take(i as int));
        }
        if id_listed(enabled_scanner_ids, all[i].id()) {
            scanners.push(all[i]);
        }
        i += 1;
    }
    assert(all@.take(all@.len() as int) == all@);
    Some(ScanSession { config: config.scan_settings(), scanners })
}

/// The scanner under which a finding is booked: the one that its metadata
/// names, or the empty identity where it names none.
pub open spec fn source_of(item: crate::plugin::ScanResultView) -> Seq<char> {
    if item.metadata.dom().contains("scanner_id"@) {
        item.metadata["scanner_id"@]
    } else {
        Seq::empty()
    }
}

/// The messages that the job of scanner `kind` sends when it accepts the
/// findings `items`, apart from the paths it looks at: that it began, each
/// finding in the order of acceptance, and that it has finished.
pub open spec fn job_messages(
    kind: ScannerKind,
    items: Seq<crate::plugin::ScanResultView>,
) -> Seq<ScanMessageView> {
    seq![ScanMessageView::ScannerStart { name: kind.title() }] + items.map_values(
        |item: crate::plugin::ScanResultView|
            ScanMessageView::ItemFound { scanner_id: source_of(item), item },
    ) + seq![
        ScanMessageView::ScannerDone {
            scanner_id: kind.ident(),
            name: kind.title(),
            category: kind.group(),
        },
    ]
}

/// The message with which a job says that scanner `kind` began.
pub fn started_message(kind: ScannerKind) -> (m: ScanMessage)
    ensures
        m@ == (ScanMessageView::ScannerStart { name: kind.title() }),
{
    ScanMessage::ScannerStart { name: String::from_str(kind.name()) }
}

/// The message with which a job hands on the finding `item`.
pub fn item_message(item: ScanResult) -> (m: ScanMessage)
    ensures
        m@ == (ScanMessageView::ItemFound { scanner_id: source_of(item@), item: item@ }),
{
    let scanner_id = match item.metadata.get_text("scanner_id") {
        Some(id) => id.clone(),
        None => String::new(),
    };
    ScanMessage::ItemFound { scanner_id, item }
}

/// The message with which a job says that scanner `kind` has finished.
pub fn done_message(kind: ScannerKind) -> (m: ScanMessage)
    ensures
        m@ == (ScanMessageView::ScannerDone {
            scanner_id: kind.ident(),
            name: kind.title(),
            category: kind.group(),
        }),
{
    ScanMessage::ScannerDone {
        scanner_id: String::from_str(kind.scanner_id()),
        name: String::from_str(kind.name()),
        category: kind.category(),
    }
}

/// Whether a session over `total` scanners, of which `completed` have
/// finished, is over.
pub fn all_finished(completed: usize, total: usize) -> (r: bool)
    ensures
        r == (completed >= total),
{
    completed >= total
}

/// What the consumer of a scan holds.
pub struct ConsumerView {
    pub report: Option<ReportView>,
    pub progress: ScanProgressView,
    pub cursor: Option<usize>,
    /// The session's last message has arrived.
    pub complete: bool,
}

/// `n + 1`, stopping at the largest machine-size number.
pub open spec fn one_more(n: usize) -> usize {
    clamp_usize((n + 1) as nat)
}

/// The consumer's state after the message `m`.
pub open spec fn received(s: ConsumerView, m: ScanMessageView) -> ConsumerView {
    match m {
        ScanMessageView::ScannerStart { name } => ConsumerView {
            progress: ScanProgressView {
                current_scanner: name,
                active_scanners: one_more(s.progress.active_scanners),
                ..s.progress
            },
            ..s
        },
        ScanMessageView::ScanningPath { path } => ConsumerView {
            progress: ScanProgressView { current_path: Some(path), ..s.progress },
            ..s
        },
        ScanMessageView::ItemFound { scanner_id, item } => match s.report {
            Some(r) => ConsumerView {
                report: Some(
                    ReportView { categories: with_item(r.categories, scanner_id, item), ..r },
                ),
                cursor: if r.categories.len() == 0 {
                    Some(0usize)
                } else {
                    s.cursor
                },
                ..s
            },
            None => s,
        },
        ScanMessageView::ScannerDone { scanner_id, name, category } => ConsumerView {
            report: match s.report {
                Some(r) => Some(
                    ReportView {
                        categories: with_scanner_done(r.categories, scanner_id, name, category),
                        ..r
                    },
                ),
                None => None,
            },
            progress: ScanProgressView {
                scanners_done: one_more(s.progress.scanners_done),
                active_scanners: if s.progress.active_scanners > 0 {
                    (s.progress.active_scanners - 1) as usize
                } else {
                    0
                },
                current_path: None,
                ..s.progress
            },
            ..s
        },
        ScanMessageView::ScanComplete => ConsumerView { complete: true, ..s },
    }
}

/// The consumer's state after the messages `messages`, in order.
pub open spec fn received_all(s: ConsumerView, messages: Seq<ScanMessageView>) -> ConsumerView
    decreases messages.len(),
{
    if messages.len() == 0 {
        s
    } else {
        received(received_all(s, messages.drop_last()), messages.last())
    }
}

/// Takes in one message of the running scan. Returns whether the session is
/// over with it.
pub fn apply_message(
    report: &mut Option<ScanReport>,
    scan_progress: &mut ScanProgress,
    list_state: &mut ListState,
    message: ScanMessage,
) -> (complete: bool)
    ensures
        (ConsumerView {
            report: report_view(*final(report)),
            progress: final(scan_progress)@,
            cursor: final(list_state).cursor(),
            complete,
        }) == received(
            ConsumerView {
                report: report_view(*old(report)),
                progress: old(scan_progress)@,
                cursor: old(list_state).cursor(),
                complete: false,
            },
            message@,
        ),
{
    match message {
        ScanMessage::ScannerStart { name } => {
            scan_progress.current_scanner = name;
            scan_progress.active_scanners = add_clamped_usize(scan_progress.active_scanners, 1);
            false
        },
        ScanMessage::ScanningPath { path } => {
            scan_progress.current_path = Some(path);
            false
        },
        ScanMessage::ItemFound { scanner_id, item } => {
            match report {
                Some(r) => {
                    let first = r.categories().len() == 0;
                    proof {
                        crate::search::lemma_first_match(
                            r@.categories,
                            |c: crate::plugin::CategoryView| c.scanner_id == scanner_id@,
                        );
                    }
                    r.add_item(scanner_id.as_str(), item);
                    if first {
                        list_state.select(Some(0));
                    }
                },
                None => {},
            }
            false
        },
        ScanMessage::ScannerDone { scanner_id, name, category } => {
            match report {
                Some(r) => {
                    r.finish_scanner(scanner_id.as_str(), name, category);
                },
                None => {},
            }
            scan_progress.scanners_done = add_clamped_usize(scan_progress.scanners_done, 1);
            scan_progress.active_scanners = if scan_progress.active_scanners > 0 {
                scan_progress.active_scanners - 1
            } else {
                0
            };
            scan_progress.current_path = None;
            false
        },
        ScanMessage::ScanComplete => true,
    }
}

/// Takes in the messages drained from the scan's channel, in the order of
/// arrival. Returns whether the session's last message was among them, after
/// which the channel is no longer read.
pub fn poll_scan_messages(
    report: &mut Option<ScanReport>,
    scan_progress: &mut ScanProgress,
    list_state: &mut ListState,
    messages: Vec<ScanMessage>,
) -> (complete: bool)
    ensures
        (ConsumerView {
            report: report_view(*final(report)),
            progress: final(scan_progress)@,
            cursor: final(list_state).cursor(),
            complete,
        }) == received_all(
            ConsumerView {
                report: report_view(*old(report)),
                progress: old(scan_progress)@,
                cursor: old(list_state).cursor(),
                complete: false,
            },
            views(messages@),
        ),
{
    let ghost all = views(messages@);
    let ghost start = ConsumerView {
        report: report_view(*report),
        progress: scan_progress@,
        cursor: list_state.cursor(),
        complete: false,
    };
    let mut rest = crate::plugin::registry::reversed(messages);
    let mut complete = false;
    let mut done: usize = 0;
    assert(all.take(0) =~= Seq::<ScanMessageView>::empty());
    assert(all.len() == rest.len());
    while rest.len() > 0
        invariant
            done + rest@.len() == all.len(),
            all.len() <= usize::MAX,
            forall|j: int| 0 <= j < rest@.len() ==> (#[trigger] rest@[j])@ == all[all.len() - 1 - j],
            (ConsumerView {
                report: report_view(*report),
                progress: scan_progress@,
                cursor: list_state.cursor(),
                complete,
            }) == received_all(start, all.take(done as int)),
        decreases rest.len(),
    {
        let message = rest.pop().unwrap();
        proof {
            assert(message@ == all[done as int]);
            assert(all.take(done + 1).drop_last() == all.take(done as int));
            assert(all.take(done + 1).last() == message@);
        }
        let ghost before = ConsumerView {
            report: report_view(*report),
            progress: scan_progress@,
            cursor: list_state.cursor(),
            complete,
        };
        let last = apply_message(report, scan_progress, list_state, message);
        proof {
            let fresh = received(ConsumerView { complete: false, ..before }, message@);
            let kept = received(before, message@);
            assert(kept.report == fresh.report);
            assert(kept.progress == fresh.progress);
            assert(kept.cursor == fresh.cursor);
            assert(kept.complete == (before.complete || fresh.complete));
        }
        complete = complete || last;
        done += 1;
    }
    assert(all.take(done as int) == all);
    complete
}

/// The groups after scanner `id` reported the findings `items`, one after
/// another.
pub open spec fn with_items(
    categories: Seq<CategoryView>,
    id: Seq<char>,
    items: Seq<ScanResultView>,
) -> Seq<CategoryView>
    decreases items.len(),
{
    if items.len() == 0 {
        categories
    } else {
        with_item(with_items(categories, id, items.drop_last()), id, items.last())
    }
}

/// Findings that one scanner reports one after another end up together, in
/// the order of their arrival: behind those that the scanner's first group
/// held, or, where it had no group, in a new group behind all others. No
/// other group changes.
pub proof fn lemma_findings_stay_together(
    categories: Seq<CategoryView>,
    id: Seq<char>,
    items: Seq<ScanResultView>,
)
    requires
        items.len() > 0,
    ensures
        position_of(categories, id) < categories.len() ==> with_items(categories, id, items)
            == categories.update(
            position_of(categories, id),
            CategoryView {
                items: categories[position_of(categories, id)].items + items,
                ..categories[position_of(categories, id)]
            },
        ),
        position_of(categories, id) >= categories.len() ==> with_items(categories, id, items)
            == categories.push(
            CategoryView {
                scanner_id: id,
                name: id,
                category: ScannerCategory::System,
                icon: Seq::empty(),
                items,
            },
        ),
        position_of(with_items(categories, id, items), id) == position_of(categories, id),
    decreases items.len(),
{
    let is_of = |c: CategoryView| c.scanner_id == id;
    let p = position_of(categories, id);
    lemma_first_match(categories, is_of);
    let head = items.drop_last();
    let before = with_items(categories, id, head);
    if head.len() == 0 {
        assert(before == categories);
        if p < categories.len() {
            assert(categories[p].items.push(items.last()) =~= categories[p].items + items);
        } else {
            assert(seq![items.last()] =~= items);
        }
    } else {
        lemma_findings_stay_together(categories, id, head);
        if p < categories.len() {
            assert(before[p].items.push(items.last()) =~= categories[p].items + items);
            assert(with_item(before, id, items.last()) =~= categories.update(
                p,
                CategoryView { items: categories[p].items + items, ..categories[p] },
            ));
        } else {
            assert(before[p].items.push(items.last()) =~= items);
            assert(with_item(before, id, items.last()) =~= categories.push(
                CategoryView {
                    scanner_id: id,
                    name: id,
                    category: ScannerCategory::System,
                    icon: Seq::empty(),
                    items,
                },
            ));
        }
    }
    let after = with_items(categories, id, items);
    assert forall|k: int| 0 <= k < p implies !is_of(#[trigger] after[k]) by {
        assert(after[k] == categories[k]);
    }
    lemma_first_match_is(after, is_of, p);
}

/// What the consumer holds after the messages of one scanner's job arrived
/// in the order in which the job sent them: the scanner's findings are in
/// the report, booked under the scanner that each names, the scanner is
/// counted as done with the name and category it reported, and the cursor
/// stands on the first group where the report was empty before.
pub proof fn lemma_job_is_booked(s: ConsumerView, kind: ScannerKind, items: Seq<ScanResultView>)
    requires
        s.report is Some,
        forall|i: int| 0 <= i < items.len() ==> source_of(#[trigger] items[i]) == kind.ident(),
    ensures
        received_all(s, job_messages(kind, items)) == (ConsumerView {
            report: Some(
                ReportView {
                    categories: with_scanner_done(
                        with_items(s.report->0.categories, kind.ident(), items),
                        kind.ident(),
                        kind.title(),
                        kind.group(),
                    ),
                    ..s.report->0
                },
            ),
            progress: ScanProgressView {
                current_scanner: kind.title(),
                current_path: None,
                scanners_done: one_more(s.progress.scanners_done),
                active_scanners: if one_more(s.progress.active_scanners) > 0 {
                    (one_more(s.progress.active_scanners) - 1) as usize
                } else {
                    0
                },
                ..s.progress
            },
            cursor: if s.report->0.categories.len() == 0 && items.len() > 0 {
                Some(0usize)
            } else {
                s.cursor
            },
            ..s
        }),
{
    let done = ScanMessageView::ScannerDone {
        scanner_id: kind.ident(),
        name: kind.title(),
        category: kind.group(),
    };
    let sent = job_messages(kind, items);
    lemma_items_are_booked(s, kind, items);
    assert(sent.drop_last() =~= items_sent(kind, items));
    assert(sent.last() == done);
}

/// The first messages of a job: that it began, and its findings.
spec fn items_sent(kind: ScannerKind, items: Seq<ScanResultView>) -> Seq<ScanMessageView> {
    seq![ScanMessageView::ScannerStart { name: kind.title() }] + items.map_values(
        |item: ScanResultView| ScanMessageView::ItemFound { scanner_id: source_of(item), item },
    )
}

proof fn lemma_items_are_booked(s: ConsumerView, kind: ScannerKind, items: Seq<ScanResultView>)
    requires
        s.report is Some,
        forall|i: int| 0 <= i < items.len() ==> source_of(#[trigger] items[i]) == kind.ident(),
    ensures
        received_all(s, items_sent(kind, items)) == (ConsumerView {
            report: Some(
                ReportView {
                    categories: with_items(s.report->0.categories, kind.ident(), items),
                    ..s.report->0
                },
            ),
            progress: ScanProgressView {
                current_scanner: kind.title(),
                active_scanners: one_more(s.progress.active_scanners),
                ..s.progress
            },
            cursor: if s.report->0.categories.len() == 0 && items.len() > 0 {
                Some(0usize)
            } else {
                s.cursor
            },
            ..s
        }),
    decreases items.len(),
{
    let start = ScanMessageView::ScannerStart { name: kind.title() };
    let sent = items_sent(kind, items);
    if items.len() == 0 {
        assert(sent =~= seq![start]);
        assert(sent.drop_last() =~= Seq::<ScanMessageView>::empty());
        assert(received_all(s, sent.drop_last()) == s);
        assert(sent.last() == start);
    } else {
        let head = items.drop_last();
        lemma_items_are_booked(s, kind, head);
        assert(sent.drop_last() =~= items_sent(kind, head));
        assert(sent.last() == (ScanMessageView::ItemFound {
            scanner_id: source_of(items.last()),
            item: items.last(),
        }));
        assert(source_of(items.last()) == kind.ident());
        let before = with_items(s.report->0.categories, kind.ident(), head);
        if head.len() > 0 {
            lemma_findings_stay_together(s.report->0.categories, kind.ident(), head);
            assert(before.len() > 0);
        }
    }
}

/// Number of messages among `messages` that say that a scanner finished.
pub open spec fn finished_count(messages: Seq<ScanMessageView>) -> nat
    decreases messages.len(),
{
    if messages.len() == 0 {
        0
    } else {
        finished_count(messages.drop_last()) + if messages.last() is ScannerDone {
            1nat
        } else {
            0nat
        }
    }
}

/// The findings that `messages` hand on, in the order of arrival.
pub open spec fn findings_sent(messages: Seq<ScanMessageView>) -> Seq<ScanResultView>
    decreases messages.len(),
{
    if messages.len() == 0 {
        Seq::empty()
    } else {
        match messages.last() {
            ScanMessageView::ItemFound { scanner_id, item } => findings_sent(
                messages.drop_last(),
            ).push(item),
            _ => findings_sent(messages.drop_last()),
        }
    }
}

/// One more finding makes a report one finding and the finding's bytes
/// larger, whichever group takes it.
pub proof fn lemma_item_adds_to_totals(
    categories: Seq<CategoryView>,
    id: Seq<char>,
    item: ScanResultView,
)
    ensures
        report_items(with_item(categories, id, item)) == report_items(categories) + 1,
        report_size(with_item(categories, id, item)) == report_size(categories) + item.size,
{
    let p = position_of(categories, id);
    lemma_first_match(categories, |c: CategoryView| c.scanner_id == id);
    if p < categories.len() {
        let grown = CategoryView { items: categories[p].items.push(item), ..categories[p] };
        assert(grown.items.drop_last() == categories[p].items);
        lemma_totals_update(categories, p, grown);
    } else {
        let fresh = CategoryView {
            scanner_id: id,
            name: id,
            category: ScannerCategory::System,
            icon: Seq::empty(),
            items: seq![item],
        };
        assert(fresh.items.drop_last() =~= Seq::<ScanResultView>::empty());
        assert(sum_sizes(fresh.items.drop_last()) == 0);
        lemma_totals_push(categories, fresh);
    }
}

/// That a scanner finished changes no total of the report.
pub proof fn lemma_finish_keeps_totals(
    categories: Seq<CategoryView>,
    id: Seq<char>,
    name: Seq<char>,
    category: ScannerCategory,
)
    ensures
        report_items(with_scanner_done(categories, id, name, category)) == report_items(
            categories,
        ),
        report_size(with_scanner_done(categories, id, name, category)) == report_size(categories),
{
    let p = position_of(categories, id);
    lemma_first_match(categories, |c: CategoryView| c.scanner_id == id);
    if p < categories.len() {
        lemma_totals_update(categories, p, CategoryView { name, category, ..categories[p] });
    }
}

/// In whatever order the messages of the running scanners arrive, each of
/// them counts: every scanner that finished is counted as done, every
/// finding is in the report with its bytes, and the session is over exactly
/// when its last message was among them.
pub proof fn lemma_every_message_counts(s: ConsumerView, messages: Seq<ScanMessageView>)
    requires
        s.report is Some,
    ensures
        received_all(s, messages).report is Some,
        received_all(s, messages).progress.scanners_done == clamp_usize(
            (s.progress.scanners_done + finished_count(messages)) as nat,
        ),
        report_items(received_all(s, messages).report->0.categories) == report_items(
            s.report->0.categories,
        ) + findings_sent(messages).len(),
        report_size(received_all(s, messages).report->0.categories) == report_size(
            s.report->0.categories,
        ) + sum_sizes(findings_sent(messages)),
        received_all(s, messages).complete == (s.complete || messages.contains(
            ScanMessageView::ScanComplete,
        )),
    decreases messages.len(),
{
    if messages.len() > 0 {
        let head = messages.drop_last();
        let before = received_all(s, head);
        lemma_every_message_counts(s, head);
        match messages.last() {
            ScanMessageView::ItemFound { scanner_id, item } => {
                lemma_item_adds_to_totals(before.report->0.categories, scanner_id, item);
                assert(findings_sent(messages).drop_last() == findings_sent(head));
            },
            ScanMessageView::ScannerDone { scanner_id, name, category } => {
                lemma_finish_keeps_totals(before.report->0.categories, scanner_id, name, category);
            },
            _ => {},
        }
        assert(messages.contains(ScanMessageView::ScanComplete) == (head.contains(
            ScanMessageView::ScanComplete,
        ) || messages.last() == ScanMessageView::ScanComplete)) by {
            if head.contains(ScanMessageView::ScanComplete) {
                let k = choose|k: int| 0 <= k < head.len() && head[k] == ScanMessageView::ScanComplete;
                assert(messages[k] == ScanMessageView::ScanComplete);
            }
            if messages.last() == ScanMessageView::ScanComplete {
                assert(messages[messages.len() - 1] == ScanMessageView::ScanComplete);
            }
            if messages.contains(ScanMessageView::ScanComplete) {
                let k = choose|k: int|
                    0 <= k < messages.len() && messages[k] == ScanMessageView::ScanComplete;
                if k < head.len() {
                    assert(head[k] == ScanMessageView::ScanComplete);
                }
            }
        }
    }
}

} // verus!
