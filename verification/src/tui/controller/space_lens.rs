//! Keys of the directory-usage explorer: moving through the tree, rescans,
//! and the deletion of an entry.

use super::common::KeyCode;
use crate::paths::{parent, parent_of};
use crate::sorting::views;
use crate::text::str_eq;
use crate::tui::logic::navigation::{moved_down, moved_up, navigate_down, navigate_up};
use crate::tui::service::disk::{
    cache_current_if_needed, entry_removed, remove_entry, snapshot_taken, start_space_scan,
    started, ScanStart,
};
use crate::tui::state::space_lens::{
    DeleteResultView, FolderEntryView, SpaceLensView,
};
use crate::tui::state::{
    AppMode, DeleteResult, FolderEntry, ListState, SpaceLensMode, SpaceLensState,
};
use vstd::prelude::*;

verus! {

/// What the explorer's keys work on.
pub struct SpaceLensContext<'a> {
    pub list_state: &'a mut ListState,
    pub space_lens: &'a mut SpaceLensState,
    pub mode: &'a mut AppMode,
    pub prev_mode: &'a mut Option<AppMode>,
    pub should_quit: &'a mut bool,
}

/// What a key in the explorer can change.
pub struct LensKeyView {
    pub cursor: Option<usize>,
    pub lens: SpaceLensView,
    pub mode: AppMode,
    pub prev_mode: Option<AppMode>,
    pub should_quit: bool,
}

impl<'a> SpaceLensContext<'a> {
    /// What a key can change, as it is now.
    pub open spec fn snapshot(&self) -> LensKeyView {
        LensKeyView {
            cursor: self.list_state.cursor(),
            lens: self.space_lens@,
            mode: *self.mode,
            prev_mode: *self.prev_mode,
            should_quit: *self.should_quit,
        }
    }
}

/// What a key asks the caller to do.
#[derive(Debug)]
pub enum LensAction {
    Nothing,
    /// A directory was entered: go on as the start of its scan says.
    Scan(ScanStart),
    /// Delete this entry, then hand the outcome to `delete_finished`.
    Delete(FolderEntry),
}

/// An action, with the entry to delete as a view.
pub enum LensActionView {
    Nothing,
    Scan(ScanStart),
    Delete(FolderEntryView),
}

impl View for LensAction {
    type V = LensActionView;

    open spec fn view(&self) -> LensActionView {
        match self {
            LensAction::Nothing => LensActionView::Nothing,
            LensAction::Scan(s) => LensActionView::Scan(*s),
            LensAction::Delete(e) => LensActionView::Delete(e@),
        }
    }
}

/// The explorer after the directory `path` was entered from the one that is
/// browsed: the listing that is left is kept as a snapshot, whatever its
/// state, and the new directory is shown as far as it is known.
pub open spec fn entered(lens: SpaceLensView, path: Seq<char>) -> (SpaceLensView, ScanStart) {
    started(SpaceLensView { current_path: path, ..snapshot_taken(lens) })
}

/// The state after leaving the explorer for the screen it was opened from,
/// if it was opened from one.
pub open spec fn left(s: LensKeyView) -> LensKeyView {
    match s.prev_mode {
        Some(prev) => LensKeyView { mode: prev, prev_mode: None, ..s },
        None => s,
    }
}

/// The state after the key `code` while browsing, and what the caller has
/// to do.
pub open spec fn browse_key(s: LensKeyView, code: KeyCode) -> (LensKeyView, LensActionView) {
    match code {
        KeyCode::Char(c) => if c == 'q' {
            match s.prev_mode {
                Some(prev) => (left(s), LensActionView::Nothing),
                None => (LensKeyView { should_quit: true, ..s }, LensActionView::Nothing),
            }
        } else if c == 'r' {
            let fresh = started(
                SpaceLensView {
                    cache: s.lens.cache.remove(s.lens.current_path),
                    entries: Seq::empty(),
                    ..s.lens
                },
            );
            (
                LensKeyView { lens: fresh.0, cursor: Some(0usize), ..s },
                LensActionView::Scan(fresh.1),
            )
        } else if c == 'p' {
            (
                LensKeyView {
                    lens: SpaceLensView {
                        parallel_scan: !s.lens.parallel_scan,
                        pending_scans: if s.lens.parallel_scan {
                            Set::empty()
                        } else {
                            s.lens.pending_scans
                        },
                        ..s.lens
                    },
                    ..s
                },
                LensActionView::Nothing,
            )
        } else if c == 'd' {
            match s.cursor {
                Some(row) => if row < s.lens.entries.len() {
                    (
                        LensKeyView {
                            lens: SpaceLensView {
                                pending_delete: Some(s.lens.entries[row as int]),
                                delete_mode: SpaceLensMode::ConfirmDelete,
                                ..s.lens
                            },
                            ..s
                        },
                        LensActionView::Nothing,
                    )
                } else {
                    (s, LensActionView::Nothing)
                },
                None => (s, LensActionView::Nothing),
            }
        } else if c == '?' {
            (
                LensKeyView { prev_mode: Some(s.mode), mode: AppMode::Help, ..s },
                LensActionView::Nothing,
            )
        } else {
            (s, LensActionView::Nothing)
        },
        KeyCode::Up => (LensKeyView { cursor: moved_up(s.cursor), ..s }, LensActionView::Nothing),
        KeyCode::Down => (
            LensKeyView { cursor: moved_down(s.cursor, s.lens.entries.len() as usize), ..s },
            LensActionView::Nothing,
        ),
        KeyCode::Enter => match s.cursor {
            Some(row) => if row < s.lens.entries.len() && s.lens.entries[row as int].is_dir {
                let inside = entered(s.lens, s.lens.entries[row as int].path);
                (
                    LensKeyView { lens: inside.0, cursor: Some(0usize), ..s },
                    LensActionView::Scan(inside.1),
                )
            } else {
                (s, LensActionView::Nothing)
            },
            None => (s, LensActionView::Nothing),
        },
        KeyCode::Esc | KeyCode::Backspace => match parent_of(s.lens.current_path) {
            Some(above) => if above != s.lens.current_path {
                let outside = entered(s.lens, above);
                (
                    LensKeyView { lens: outside.0, cursor: Some(0usize), ..s },
                    LensActionView::Scan(outside.1),
                )
            } else {
                (left(s), LensActionView::Nothing)
            },
            None => (left(s), LensActionView::Nothing),
        },
        _ => (s, LensActionView::Nothing),
    }
}

/// The state after the key `code` while a deletion waits to be confirmed,
/// and what the caller has to do.
pub open spec fn confirm_key(s: LensKeyView, code: KeyCode) -> (LensKeyView, LensActionView) {
    if code.confirms() {
        match s.lens.pending_delete {
            Some(entry) => (
                LensKeyView { lens: SpaceLensView { pending_delete: None, ..s.lens }, ..s },
                LensActionView::Delete(entry),
            ),
            None => (
                LensKeyView {
                    lens: SpaceLensView { delete_mode: SpaceLensMode::Browse, ..s.lens },
                    ..s
                },
                LensActionView::Nothing,
            ),
        }
    } else if code.declines() {
        (
            LensKeyView {
                lens: SpaceLensView {
                    pending_delete: None,
                    delete_mode: SpaceLensMode::Browse,
                    ..s.lens
                },
                ..s
            },
            LensActionView::Nothing,
        )
    } else {
        (s, LensActionView::Nothing)
    }
}

/// The state after the key `code` while the result of a deletion is shown.
pub open spec fn result_key(s: LensKeyView, code: KeyCode) -> LensKeyView {
    if code.dismisses() {
        LensKeyView {
            lens: SpaceLensView {
                delete_result: None,
                delete_mode: SpaceLensMode::Browse,
                ..s.lens
            },
            ..s
        }
    } else {
        s
    }
}

/// The state after the key `code`, and what the caller has to do.
pub open spec fn space_lens_key(s: LensKeyView, code: KeyCode) -> (LensKeyView, LensActionView) {
    match s.lens.delete_mode {
        SpaceLensMode::ConfirmDelete => confirm_key(s, code),
        SpaceLensMode::ShowResult => (result_key(s, code), LensActionView::Nothing),
        SpaceLensMode::Browse => browse_key(s, code),
    }
}

fn leave(ctx: &mut SpaceLensContext)
    ensures
        final(ctx).snapshot() == left(old(ctx).snapshot()),
        *final(final(ctx).list_state) == *final(old(ctx).list_state),
        *final(final(ctx).space_lens) == *final(old(ctx).space_lens),
        *final(final(ctx).mode) == *final(old(ctx).mode),
        *final(final(ctx).prev_mode) == *final(old(ctx).prev_mode),
        *final(final(ctx).should_quit) == *final(old(ctx).should_quit),
{
    match *ctx.prev_mode {
        Some(prev) => {
            *ctx.mode = prev;
            *ctx.prev_mode = None;
        },
        None => {},
    }
}

fn enter(ctx: &mut SpaceLensContext, path: String) -> (start: ScanStart)
    ensures
        final(ctx).snapshot() == (LensKeyView {
            lens: entered(old(ctx).snapshot().lens, path@).0,
            cursor: Some(0usize),
            ..old(ctx).snapshot()
        }),
        start == entered(old(ctx).snapshot().lens, path@).1,
        *final(final(ctx).list_state) == *final(old(ctx).list_state),
        *final(final(ctx).space_lens) == *final(old(ctx).space_lens),
        *final(final(ctx).mode) == *final(old(ctx).mode),
        *final(final(ctx).prev_mode) == *final(old(ctx).prev_mode),
        *final(final(ctx).should_quit) == *final(old(ctx).should_quit),
{
    cache_current_if_needed(ctx.space_lens);
    ctx.space_lens.current_path = path;
    ctx.list_state.select(Some(0));
    start_space_scan(ctx.space_lens)
}

fn handle_browse_key(ctx: &mut SpaceLensContext, code: KeyCode) -> (action: LensAction)
    ensures
        (final(ctx).snapshot(), action@) == browse_key(old(ctx).snapshot(), code),
        *final(final(ctx).list_state) == *final(old(ctx).list_state),
        *final(final(ctx).space_lens) == *final(old(ctx).space_lens),
        *final(final(ctx).mode) == *final(old(ctx).mode),
        *final(final(ctx).prev_mode) == *final(old(ctx).prev_mode),
        *final(final(ctx).should_quit) == *final(old(ctx).should_quit),
{
    let ghost entries = views(ctx.space_lens.entries@);
    assert(entries.len() == ctx.space_lens.entries@.len());
    match code {
        KeyCode::Char(c) => {
            if c == 'q' {
                if ctx.prev_mode.is_some() {
                    leave(ctx);
                } else {
                    *ctx.should_quit = true;
                }
                LensAction::Nothing
            } else if c == 'r' {
                ctx.space_lens.cache.remove(ctx.space_lens.current_path.as_str());
                ctx.space_lens.entries.clear();
                ctx.list_state.select(Some(0));
                proof {
                    assert(views(ctx.space_lens.entries@) =~= Seq::<FolderEntryView>::empty());
                    assert(ctx.space_lens@.cache =~= old(ctx).space_lens@.cache.remove(
                        old(ctx).space_lens@.current_path,
                    ));
                }
                LensAction::Scan(start_space_scan(ctx.space_lens))
            } else if c == 'p' {
                ctx.space_lens.parallel_scan = !ctx.space_lens.parallel_scan;
                if !ctx.space_lens.parallel_scan {
                    ctx.space_lens.pending_scans.clear();
                }
                LensAction::Nothing
            } else if c == 'd' {
                match ctx.list_state.selected() {
                    Some(row) => {
                        if row < ctx.space_lens.entries.len() {
                            assert(entries[row as int] == ctx.space_lens.entries@[row as int]@);
                            ctx.space_lens.pending_delete = Some(
                                ctx.space_lens.entries[row].clone(),
                            );
                            ctx.space_lens.delete_mode = SpaceLensMode::ConfirmDelete;
                        }
                    },
                    None => {},
                }
                LensAction::Nothing
            } else if c == '?' {
                *ctx.prev_mode = Some(*ctx.mode);
                *ctx.mode = AppMode::Help;
                LensAction::Nothing
            } else {
                LensAction::Nothing
            }
        },
        KeyCode::Up => {
            navigate_up(ctx.list_state);
            LensAction::Nothing
        },
        KeyCode::Down => {
            navigate_down(ctx.list_state, ctx.space_lens.entries.len());
            LensAction::Nothing
        },
        KeyCode::Enter => {
            match ctx.list_state.selected() {
                Some(row) => {
                    if row < ctx.space_lens.entries.len() && ctx.space_lens.entries[row].is_dir {
                        assert(entries[row as int] == ctx.space_lens.entries@[row as int]@);
                        let path = ctx.space_lens.entries[row].path.clone();
                        LensAction::Scan(enter(ctx, path))
                    } else {
                        if row < ctx.space_lens.entries.len() {
                            assert(entries[row as int] == ctx.space_lens.entries@[row as int]@);
                        }
                        LensAction::Nothing
                    }
                },
                None => LensAction::Nothing,
            }
        },
        KeyCode::Esc | KeyCode::Backspace => {
            match parent(ctx.space_lens.current_path.as_str()) {
                Some(above) => {
                    if !str_eq(above.as_str(), ctx.space_lens.current_path.as_str()) {
                        LensAction::Scan(enter(ctx, above))
                    } else {
                        leave(ctx);
                        LensAction::Nothing
                    }
                },
                None => {
                    leave(ctx);
                    LensAction::Nothing
                },
            }
        },
        _ => LensAction::Nothing,
    }
}

fn handle_confirm_key(ctx: &mut SpaceLensContext, code: KeyCode) -> (action: LensAction)
    ensures
        (final(ctx).snapshot(), action@) == confirm_key(old(ctx).snapshot(), code),
        *final(final(ctx).list_state) == *final(old(ctx).list_state),
        *final(final(ctx).space_lens) == *final(old(ctx).space_lens),
        *final(final(ctx).mode) == *final(old(ctx).mode),
        *final(final(ctx).prev_mode) == *final(old(ctx).prev_mode),
        *final(final(ctx).should_quit) == *final(old(ctx).should_quit),
{
    if code.is_confirm() {
        let pending = match &ctx.space_lens.pending_delete {
            Some(entry) => Some(entry.clone()),
            None => None,
        };
        match pending {
            Some(entry) => {
                ctx.space_lens.pending_delete = None;
                LensAction::Delete(entry)
            },
            None => {
                ctx.space_lens.delete_mode = SpaceLensMode::Browse;
                LensAction::Nothing
            },
        }
    } else if code.is_decline() {
        ctx.space_lens.pending_delete = None;
        ctx.space_lens.delete_mode = SpaceLensMode::Browse;
        LensAction::Nothing
    } else {
        LensAction::Nothing
    }
}

fn handle_result_key(ctx: &mut SpaceLensContext, code: KeyCode)
    ensures
        final(ctx).snapshot() == result_key(old(ctx).snapshot(), code),
        *final(final(ctx).list_state) == *final(old(ctx).list_state),
        *final(final(ctx).space_lens) == *final(old(ctx).space_lens),
        *final(final(ctx).mode) == *final(old(ctx).mode),
        *final(final(ctx).prev_mode) == *final(old(ctx).prev_mode),
        *final(final(ctx).should_quit) == *final(old(ctx).should_quit),
{
    if code.is_dismiss() {
        ctx.space_lens.delete_result = None;
        ctx.space_lens.delete_mode = SpaceLensMode::Browse;
    }
}

/// A key in the explorer.
pub fn handle_space_lens_key(ctx: &mut SpaceLensContext, code: KeyCode) -> (action: LensAction)
    ensures
        (final(ctx).snapshot(), action@) == space_lens_key(old(ctx).snapshot(), code),
        *final(final(ctx).list_state) == *final(old(ctx).list_state),
        *final(final(ctx).space_lens) == *final(old(ctx).space_lens),
        *final(final(ctx).mode) == *final(old(ctx).mode),
        *final(final(ctx).prev_mode) == *final(old(ctx).prev_mode),
        *final(final(ctx).should_quit) == *final(old(ctx).should_quit),
{
    match ctx.space_lens.delete_mode {
        SpaceLensMode::ConfirmDelete => handle_confirm_key(ctx, code),
        SpaceLensMode::ShowResult => {
            handle_result_key(ctx, code);
            LensAction::Nothing
        },
        SpaceLensMode::Browse => handle_browse_key(ctx, code),
    }
}

/// What came of deleting `entry`: its size is freed where the deletion
/// succeeded; where it failed, nothing is freed and the error is kept.
pub open spec fn deletion_result(entry: FolderEntryView, error: Option<Seq<char>>) -> DeleteResultView {
    match error {
        None => DeleteResultView { path: entry.path, success: true, size: entry.size, error: None },
        Some(e) => DeleteResultView { path: entry.path, success: false, size: 0, error: Some(e) },
    }
}

/// The result of deleting `entry`, which failed with `error` or did not.
pub fn delete_result(entry: &FolderEntry, error: Option<String>) -> (r: DeleteResult)
    ensures
        r@ == deletion_result(
            entry@,
            match error {
                Some(e) => Some(e@),
                None => None,
            },
        ),
{
    match error {
        None => DeleteResult {
            path: entry.path.clone(),
            success: true,
            size: entry.size,
            error: None,
        },
        Some(e) => DeleteResult {
            path: entry.path.clone(),
            success: false,
            size: 0,
            error: Some(e),
        },
    }
}

/// The cursor after the listing shrank to `rows` rows: it stays where it
/// is unless it would stand behind the last row.
pub open spec fn cursor_within(cursor: Option<usize>, rows: nat) -> Option<usize> {
    let at = match cursor {
        Some(row) => row,
        None => 0,
    };
    if at >= rows {
        Some(
            if rows > 0 {
                (rows - 1) as usize
            } else {
                0usize
            },
        )
    } else {
        cursor
    }
}

/// The state after the deletion of `entry` ended with `result`: the entry
/// has left the listing, whatever the result; the total is the sum of what
/// is left; the snapshot of the browsed directory is dropped, so that the
/// next visit scans anew; and the result is shown.
pub open spec fn deleted(s: LensKeyView, entry: FolderEntryView, result: DeleteResultView) -> LensKeyView {
    let lens = entry_removed(s.lens, entry.path);
    LensKeyView {
        lens: SpaceLensView {
            delete_result: Some(result),
            delete_mode: SpaceLensMode::ShowResult,
            ..lens
        },
        cursor: cursor_within(s.cursor, lens.entries.len()),
        ..s
    }
}

/// Takes in the result of the deletion that the user confirmed.
pub fn delete_finished(ctx: &mut SpaceLensContext, entry: &FolderEntry, result: DeleteResult)
    ensures
        final(ctx).snapshot() == deleted(old(ctx).snapshot(), entry@, result@),
        *final(final(ctx).list_state) == *final(old(ctx).list_state),
        *final(final(ctx).space_lens) == *final(old(ctx).space_lens),
        *final(final(ctx).mode) == *final(old(ctx).mode),
        *final(final(ctx).prev_mode) == *final(old(ctx).prev_mode),
        *final(final(ctx).should_quit) == *final(old(ctx).should_quit),
{
    remove_entry(ctx.space_lens, entry.path.as_str());
    let rows = ctx.space_lens.entries.len();
    assert(rows == views(ctx.space_lens.entries@).len());
    let at = match ctx.list_state.selected() {
        Some(row) => row,
        None => 0,
    };
    if at >= rows {
        ctx.list_state.select(
            Some(
                if rows > 0 {
                    rows - 1
                } else {
                    0
                },
            ),
        );
    }
    ctx.space_lens.delete_result = Some(result);
    ctx.space_lens.delete_mode = SpaceLensMode::ShowResult;
}

} // verus!
