//! Keys of the application list.

use super::common::KeyCode;
use crate::tui::logic::navigation::{moved_down, moved_up, navigate_down, navigate_up};
use crate::tui::state::{AppMode, AppsModeState, ListState};
use vstd::prelude::*;

verus! {

/// What the application list works on.
pub struct AppListContext<'a> {
    pub list_state: &'a mut ListState,
    pub apps_mode: &'a mut AppsModeState,
    pub mode: &'a mut AppMode,
    pub prev_mode: &'a mut Option<AppMode>,
    pub should_quit: &'a mut bool,
}

/// What a key on the application list can change.
pub struct AppListView {
    pub cursor: Option<usize>,
    pub selected_app_idx: Option<usize>,
    pub mode: AppMode,
    pub prev_mode: Option<AppMode>,
    pub should_quit: bool,
}

impl<'a> AppListContext<'a> {
    /// What a key can change, as it is now.
    pub open spec fn snapshot(&self) -> AppListView {
        AppListView {
            cursor: self.list_state.cursor(),
            selected_app_idx: self.apps_mode.selected_app_idx,
            mode: *self.mode,
            prev_mode: *self.prev_mode,
            should_quit: *self.should_quit,
        }
    }
}

/// The state after the key `code`, in a list of `apps` applications: `q`
/// quits, the arrows move the cursor, enter opens the application under the
/// cursor, `?` asks for help.
pub open spec fn app_list_key(s: AppListView, apps: nat, code: KeyCode) -> AppListView {
    match code {
        KeyCode::Char(c) => if c == 'q' {
            AppListView { should_quit: true, ..s }
        } else if c == '?' {
            AppListView { prev_mode: Some(s.mode), mode: AppMode::Help, ..s }
        } else {
            s
        },
        KeyCode::Up => AppListView { cursor: moved_up(s.cursor), ..s },
        KeyCode::Down => AppListView { cursor: moved_down(s.cursor, apps as usize), ..s },
        KeyCode::Enter => match s.cursor {
            Some(row) => AppListView {
                selected_app_idx: Some(row),
                mode: AppMode::LoadingRelatedFiles,
                ..s
            },
            None => s,
        },
        _ => s,
    }
}

/// A key on the application list.
pub fn handle_app_list_key(ctx: &mut AppListContext, code: KeyCode)
    ensures
        final(ctx).snapshot() == app_list_key(
            old(ctx).snapshot(),
            old(ctx).apps_mode.apps@.len(),
            code,
        ),
        final(ctx).apps_mode.apps == old(ctx).apps_mode.apps,
        final(ctx).apps_mode.app_sizes == old(ctx).apps_mode.app_sizes,
        final(ctx).apps_mode.selected_related == old(ctx).apps_mode.selected_related,
        final(ctx).apps_mode.uninstall_result == old(ctx).apps_mode.uninstall_result,
        final(ctx).apps_mode.cached_related_files == old(ctx).apps_mode.cached_related_files,
        *final(final(ctx).list_state) == *final(old(ctx).list_state),
        *final(final(ctx).apps_mode) == *final(old(ctx).apps_mode),
        *final(final(ctx).mode) == *final(old(ctx).mode),
        *final(final(ctx).prev_mode) == *final(old(ctx).prev_mode),
        *final(final(ctx).should_quit) == *final(old(ctx).should_quit),
{
    match code {
        KeyCode::Char(c) => {
            if c == 'q' {
                *ctx.should_quit = true;
            } else if c == '?' {
                *ctx.prev_mode = Some(*ctx.mode);
                *ctx.mode = AppMode::Help;
            }
        },
        KeyCode::Up => navigate_up(ctx.list_state),
        KeyCode::Down => navigate_down(ctx.list_state, ctx.apps_mode.apps.len()),
        KeyCode::Enter => {
            match ctx.list_state.selected() {
                Some(idx) => {
                    ctx.apps_mode.selected_app_idx = Some(idx);
                    *ctx.mode = AppMode::LoadingRelatedFiles;
                },
                None => {},
            }
        },
        _ => {},
    }
}

} // verus!
