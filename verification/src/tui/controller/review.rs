//! Keys of the review: moving through the findings, selecting them, and
//! asking for a rescan, another order or the explorer.

use super::common::KeyCode;
use crate::collections::StringSet;
use crate::config::Config;
use crate::plugin::registry::{CategoryView, ReportView};
use crate::plugin::traits::texts;
use crate::plugin::{ScanReport, ScanResult, ScanResultView};
use crate::sorting::views;
use crate::tui::logic::navigation::{
    moved_down, moved_up, navigate_category_next, navigate_category_prev, navigate_down,
    navigate_up,
};
use crate::tui::logic::selection::{
    deselect_all, ids_of, select_all_in_category, toggle_selection, toggled,
};
use crate::tui::logic::sorting::{apply_sort, group_listed};
use crate::tui::service::disk::{start_space_scan, started, ScanStart};
use crate::tui::service::scanner::{
    fresh_progress, report_view, selected, start_scan, ScanSession,
};
use crate::tui::state::app_state::{enabled_ids, enabled_scanner_ids};
use crate::tui::state::space_lens::SpaceLensView;
use crate::tui::state::{
    AppMode, ListState, ScanProgress, ScanProgressView, ScannerInfo, SortMode, SpaceLensState,
};
use vstd::prelude::*;

verus! {

/// What the review works on.
pub struct ReviewContext<'a> {
    pub list_state: &'a mut ListState,
    pub selected_category: &'a mut usize,
    pub selected_items: &'a mut StringSet,
    pub report: &'a mut Option<ScanReport>,
    pub mode: &'a mut AppMode,
    pub prev_mode: &'a mut Option<AppMode>,
    pub should_quit: &'a mut bool,
    pub sort_mode: &'a mut SortMode,
    pub space_lens: &'a mut SpaceLensState,
    pub config: &'a Config,
    pub available_scanners: &'a Vec<ScannerInfo>,
    pub scan_progress: &'a mut ScanProgress,
}

/// What a key in the review can change.
pub struct ReviewView {
    pub cursor: Option<usize>,
    pub selected_category: usize,
    pub selected: Set<Seq<char>>,
    pub report: Option<ReportView>,
    pub mode: AppMode,
    pub prev_mode: Option<AppMode>,
    pub should_quit: bool,
    pub sort_mode: SortMode,
    pub lens: SpaceLensView,
    pub progress: ScanProgressView,
}

impl<'a> ReviewContext<'a> {
    /// What a key can change, as it is now.
    pub open spec fn snapshot(&self) -> ReviewView {
        ReviewView {
            cursor: self.list_state.cursor(),
            selected_category: *self.selected_category,
            selected: self.selected_items@,
            report: report_view(*self.report),
            mode: *self.mode,
            prev_mode: *self.prev_mode,
            should_quit: *self.should_quit,
            sort_mode: *self.sort_mode,
            lens: self.space_lens@,
            progress: self.scan_progress@,
        }
    }
}

/// What a key asks the caller to do.
#[derive(Debug)]
pub enum ReviewAction {
    Nothing,
    /// Run this scan session.
    Scan(ScanSession),
    /// The explorer was opened: go on as the start of its scan says.
    Explore(ScanStart),
}

/// The group of findings that is shown, if there is one.
pub open spec fn shown_group(s: ReviewView) -> Option<CategoryView> {
    match s.report {
        Some(r) => if s.selected_category < r.categories.len() {
            Some(r.categories[s.selected_category as int])
        } else {
            None
        },
        None => None,
    }
}

/// The finding under the cursor, if there is one.
pub open spec fn focused(s: ReviewView) -> Option<ScanResultView> {
    match (shown_group(s), s.cursor) {
        (Some(group), Some(row)) => if row < group.items.len() {
            Some(group.items[row as int])
        } else {
            None
        },
        _ => None,
    }
}

/// The state after a key that asks for no work outside the program.
pub open spec fn review_key(s: ReviewView, code: KeyCode) -> ReviewView {
    match code {
        KeyCode::Char(c) => if c == 'q' {
            ReviewView { should_quit: true, ..s }
        } else if c == ' ' {
            ReviewView {
                selected: toggled(
                    s.selected,
                    match focused(s) {
                        Some(item) => Some(item.id),
                        None => None,
                    },
                ),
                ..s
            }
        } else if c == 'a' {
            match shown_group(s) {
                Some(group) => ReviewView { selected: s.selected.union(ids_of(group.items)), ..s },
                None => s,
            }
        } else if c == 'n' {
            ReviewView { selected: Set::empty(), ..s }
        } else if c == '?' {
            ReviewView { prev_mode: Some(s.mode), mode: AppMode::Help, ..s }
        } else if c == 's' {
            ReviewView {
                sort_mode: s.sort_mode.successor(),
                report: match s.report {
                    Some(r) => Some(
                        ReportView {
                            categories: r.categories.map_values(
                                |g: CategoryView| group_listed(g, s.sort_mode.successor()),
                            ),
                            ..r
                        },
                    ),
                    None => None,
                },
                ..s
            }
        } else {
            s
        },
        KeyCode::Up => ReviewView { cursor: moved_up(s.cursor), ..s },
        KeyCode::Down => match shown_group(s) {
            Some(group) => ReviewView {
                cursor: moved_down(s.cursor, group.items.len() as usize),
                ..s
            },
            None => s,
        },
        KeyCode::Left => if s.selected_category > 0 {
            ReviewView {
                selected_category: (s.selected_category - 1) as usize,
                cursor: Some(0usize),
                ..s
            }
        } else {
            s
        },
        KeyCode::Right => match s.report {
            Some(r) => if s.selected_category + 1 < r.categories.len() {
                ReviewView {
                    selected_category: (s.selected_category + 1) as usize,
                    cursor: Some(0usize),
                    ..s
                }
            } else {
                s
            },
            None => s,
        },
        KeyCode::Enter => if s.selected != Set::<Seq<char>>::empty() {
            ReviewView { mode: AppMode::ConfirmClean, ..s }
        } else {
            s
        },
        KeyCode::Esc | KeyCode::Tab => ReviewView { mode: AppMode::CategorySelect, ..s },
        _ => s,
    }
}

/// The state after `r`: nothing is selected any more and the report is
/// dropped; where scanners are switched on, a new report begins.
pub open spec fn rescanned(s: ReviewView, ids: Seq<Seq<char>>) -> ReviewView {
    if ids.len() == 0 {
        ReviewView { selected: Set::empty(), report: None, ..s }
    } else {
        ReviewView {
            selected: Set::empty(),
            report: Some(ReportView::empty()),
            progress: fresh_progress(ids.len() as usize),
            mode: AppMode::Review,
            ..s
        }
    }
}

/// The state after `v`: the explorer is opened on the home directory
/// `home`, and remembers the screen it was opened from.
pub open spec fn explorer_opened(s: ReviewView, home: Seq<char>) -> ReviewView {
    ReviewView {
        prev_mode: Some(s.mode),
        lens: started(SpaceLensView { current_path: home, ..s.lens }).0,
        cursor: Some(0usize),
        mode: AppMode::SpaceLens,
        ..s
    }
}

fn shown_items<'b>(report: &'b Option<ScanReport>, selected_category: usize) -> (r: Option<
    &'b Vec<ScanResult>,
>)
    ensures
        match r {
            Some(items) => report is Some && selected_category < report->0@.categories.len()
                && views(items@) == report->0@.categories[selected_category as int].items,
            None => report is None || selected_category >= report->0@.categories.len(),
        },
{
    match report {
        Some(rep) => {
            let groups = rep.categories();
            assert(views(groups@).len() == groups@.len());
            if selected_category < groups.len() {
                assert(views(groups@)[selected_category as int] == groups@[selected_category as int]@);
                Some(&groups[selected_category].items)
            } else {
                None
            }
        },
        None => None,
    }
}

/// A key in the review. `home` is the user's home directory, on which `v`
/// opens the explorer.
pub fn handle_review_key(ctx: &mut ReviewContext, code: KeyCode, home: &str) -> (action:
    ReviewAction)
    ensures
        code == KeyCode::Char('r') ==> {
            &&& final(ctx).snapshot() == rescanned(
                old(ctx).snapshot(),
                enabled_ids(old(ctx).available_scanners@),
            )
            &&& match action {
                ReviewAction::Scan(session) => {
                    &&& enabled_ids(old(ctx).available_scanners@).len() > 0
                    &&& session.scanners@ == selected(enabled_ids(old(ctx).available_scanners@))
                    &&& session.config.min_size == old(ctx).config.scan.min_size_bytes
                    &&& session.config.max_depth == old(ctx).config.scan.max_depth
                    &&& session.config.excluded_paths@ == old(ctx).config.scan.excluded_paths@
                },
                ReviewAction::Nothing => enabled_ids(old(ctx).available_scanners@).len() == 0,
                ReviewAction::Explore(_) => false,
            }
        },
        code == KeyCode::Char('v') ==> {
            &&& final(ctx).snapshot() == explorer_opened(old(ctx).snapshot(), home@)
            &&& action matches ReviewAction::Explore(start)
            &&& action->Explore_0 == started(
                SpaceLensView { current_path: home@, ..old(ctx).snapshot().lens },
            ).1
        },
        code != KeyCode::Char('r') && code != KeyCode::Char('v') ==> {
            &&& final(ctx).snapshot() == review_key(old(ctx).snapshot(), code)
            &&& action is Nothing
        },
        final(ctx).config == old(ctx).config,
        final(ctx).available_scanners == old(ctx).available_scanners,
        *final(final(ctx).list_state) == *final(old(ctx).list_state),
        *final(final(ctx).selected_category) == *final(old(ctx).selected_category),
        *final(final(ctx).selected_items) == *final(old(ctx).selected_items),
        *final(final(ctx).report) == *final(old(ctx).report),
        *final(final(ctx).mode) == *final(old(ctx).mode),
        *final(final(ctx).prev_mode) == *final(old(ctx).prev_mode),
        *final(final(ctx).should_quit) == *final(old(ctx).should_quit),
        *final(final(ctx).sort_mode) == *final(old(ctx).sort_mode),
        *final(final(ctx).space_lens) == *final(old(ctx).space_lens),
        *final(final(ctx).scan_progress) == *final(old(ctx).scan_progress),
{
    match code {
        KeyCode::Char(c) => {
            if c == 'q' {
                *ctx.should_quit = true;
                ReviewAction::Nothing
            } else if c == ' ' {
                let item: Option<&ScanResult> = match shown_items(
                    ctx.report,
                    *ctx.selected_category,
                ) {
                    Some(items) => match ctx.list_state.selected() {
                        Some(row) => {
                            assert(views(items@).len() == items@.len());
                            if row < items.len() {
                                assert(views(items@)[row as int] == items@[row as int]@);
                                Some(&items[row])
                            } else {
                                None
                            }
                        },
                        None => None,
                    },
                    None => None,
                };
                toggle_selection(ctx.selected_items, item);
                ReviewAction::Nothing
            } else if c == 'a' {
                match shown_items(ctx.report, *ctx.selected_category) {
                    Some(items) => select_all_in_category(ctx.selected_items, items),
                    None => {},
                }
                ReviewAction::Nothing
            } else if c == 'n' {
                deselect_all(ctx.selected_items);
                ReviewAction::Nothing
            } else if c == '?' {
                *ctx.prev_mode = Some(*ctx.mode);
                *ctx.mode = AppMode::Help;
                ReviewAction::Nothing
            } else if c == 's' {
                *ctx.sort_mode = ctx.sort_mode.next();
                match ctx.report {
                    Some(r) => apply_sort(r, *ctx.sort_mode),
                    None => {},
                }
                ReviewAction::Nothing
            } else if c == 'r' {
                ctx.selected_items.clear();
                *ctx.report = None;
                let ids = enabled_scanner_ids(ctx.available_scanners);
                assert(texts(ids@).len() == ids@.len());
                match start_scan(ctx.config, &ids, ctx.report, ctx.scan_progress, ctx.mode) {
                    Some(session) => ReviewAction::Scan(session),
                    None => ReviewAction::Nothing,
                }
            } else if c == 'v' {
                *ctx.prev_mode = Some(*ctx.mode);
                ctx.space_lens.current_path = String::from_str(home);
                ctx.list_state.select(Some(0));
                let start = start_space_scan(ctx.space_lens);
                *ctx.mode = AppMode::SpaceLens;
                ReviewAction::Explore(start)
            } else {
                ReviewAction::Nothing
            }
        },
        KeyCode::Up => {
            navigate_up(ctx.list_state);
            ReviewAction::Nothing
        },
        KeyCode::Down => {
            match shown_items(ctx.report, *ctx.selected_category) {
                Some(items) => {
                    assert(views(items@).len() == items@.len());
                    navigate_down(ctx.list_state, items.len());
                },
                None => {},
            }
            ReviewAction::Nothing
        },
        KeyCode::Left => {
            navigate_category_prev(ctx.selected_category, ctx.list_state);
            ReviewAction::Nothing
        },
        KeyCode::Right => {
            navigate_category_next(
                ctx.selected_category,
                ctx.list_state,
                match ctx.report {
                    Some(r) => Some(&*r),
                    None => None,
                },
            );
            ReviewAction::Nothing
        },
        KeyCode::Enter => {
            if !ctx.selected_items.is_empty() {
                *ctx.mode = AppMode::ConfirmClean;
            }
            ReviewAction::Nothing
        },
        KeyCode::Esc | KeyCode::Tab => {
            *ctx.mode = AppMode::CategorySelect;
            ReviewAction::Nothing
        },
        _ => ReviewAction::Nothing,
    }
}

} // verus!
