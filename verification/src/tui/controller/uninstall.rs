//! Keys of the review before an uninstall and of its result screen.

use super::common::KeyCode;
use crate::sorting::views;
use crate::tui::state::{AppMode, AppsModeState, ListState, UninstallResultDisplay};
use crate::uninstaller::{AppBundle, RelatedFile, RelatedFileView, UninstallResult};
use vstd::prelude::*;

verus! {

/// What the review before an uninstall works on.
pub struct UninstallReviewContext<'a> {
    pub list_state: &'a mut ListState,
    pub apps_mode: &'a mut AppsModeState,
    pub mode: &'a mut AppMode,
    pub prev_mode: &'a mut Option<AppMode>,
}

/// What a key on the review can change.
pub struct UninstallReviewView {
    pub cursor: Option<usize>,
    pub selected_app_idx: Option<usize>,
    pub selected_related: Set<usize>,
    pub mode: AppMode,
    pub prev_mode: Option<AppMode>,
}

impl<'a> UninstallReviewContext<'a> {
    /// What a key can change, as it is now.
    pub open spec fn snapshot(&self) -> UninstallReviewView {
        UninstallReviewView {
            cursor: self.list_state.cursor(),
            selected_app_idx: self.apps_mode.selected_app_idx,
            selected_related: self.apps_mode.selected_related@,
            mode: *self.mode,
            prev_mode: *self.prev_mode,
        }
    }
}

/// The rows that `a` selects: the application, and every related file that
/// is not protected.
pub open spec fn all_rows(files: Seq<RelatedFileView>) -> Set<usize> {
    Set::new(
        |row: usize|
            row == 0 || (1 <= row <= files.len() && !files[row - 1].category.protected()),
    )
}

/// The cursor one row down in the review of an application with `files`
/// related files; the last row is row `files`.
pub open spec fn review_down(cursor: Option<usize>, files: nat) -> Option<usize> {
    match cursor {
        Some(row) => if row < files {
            Some((row + 1) as usize)
        } else {
            cursor
        },
        None => None,
    }
}

/// The state after the key `code`, for an application with the related
/// files `files`: `q` and escape lead back to the list; the arrows move the
/// cursor; space flips the row under the cursor, `a` selects all rows that
/// may be removed, `n` none; `?` asks for help. Enter changes nothing
/// before the uninstall was carried out.
pub open spec fn uninstall_review_key(
    s: UninstallReviewView,
    files: Seq<RelatedFileView>,
    code: KeyCode,
) -> UninstallReviewView {
    match code {
        KeyCode::Esc => UninstallReviewView {
            mode: AppMode::AppList,
            selected_related: Set::empty(),
            selected_app_idx: None,
            ..s
        },
        KeyCode::Char(c) => if c == 'q' {
            UninstallReviewView {
                mode: AppMode::AppList,
                selected_related: Set::empty(),
                selected_app_idx: None,
                ..s
            }
        } else if c == ' ' {
            match s.cursor {
                Some(row) => UninstallReviewView {
                    selected_related: if s.selected_related.contains(row) {
                        s.selected_related.remove(row)
                    } else {
                        s.selected_related.insert(row)
                    },
                    ..s
                },
                None => s,
            }
        } else if c == 'a' {
            UninstallReviewView { selected_related: s.selected_related.union(all_rows(files)), ..s }
        } else if c == 'n' {
            UninstallReviewView { selected_related: Set::empty(), ..s }
        } else if c == '?' {
            UninstallReviewView { prev_mode: Some(s.mode), mode: AppMode::Help, ..s }
        } else {
            s
        },
        KeyCode::Up => UninstallReviewView {
            cursor: crate::tui::logic::navigation::moved_up(s.cursor),
            ..s
        },
        KeyCode::Down => UninstallReviewView { cursor: review_down(s.cursor, files.len()), ..s },
        _ => s,
    }
}

/// What is to be uninstalled.
#[derive(Debug)]
pub struct UninstallRequest {
    /// Position of the application in the list.
    pub app_idx: usize,
    pub app: AppBundle,
    /// The related files whose rows are selected, in their order.
    pub related: Vec<RelatedFile>,
}

/// The related files of `files` whose row is one of `rows`, in their order.
pub open spec fn selected_files(files: Seq<RelatedFileView>, rows: Set<usize>) -> Seq<
    RelatedFileView,
>
    decreases files.len(),
{
    if files.len() == 0 {
        Seq::empty()
    } else if files.len() <= usize::MAX && rows.contains(files.len() as usize) {
        selected_files(files.drop_last(), rows).push(files.last())
    } else {
        selected_files(files.drop_last(), rows)
    }
}

/// Selects the application and every related file that is not protected,
/// beside what is selected.
pub fn select_all_related(apps_mode: &mut AppsModeState)
    ensures
        final(apps_mode).selected_related@ == old(apps_mode).selected_related@.union(
            all_rows(views(old(apps_mode).cached_related_files@)),
        ),
        final(apps_mode).apps == old(apps_mode).apps,
        final(apps_mode).app_sizes == old(apps_mode).app_sizes,
        final(apps_mode).selected_app_idx == old(apps_mode).selected_app_idx,
        final(apps_mode).uninstall_result == old(apps_mode).uninstall_result,
        final(apps_mode).cached_related_files == old(apps_mode).cached_related_files,
{
    broadcast use vstd::std_specs::hash::group_hash_axioms;

    let ghost files = views(apps_mode.cached_related_files@);
    let ghost start = apps_mode.selected_related@;
    apps_mode.selected_related.insert(0);
    let mut i: usize = 0;
    while i < apps_mode.cached_related_files.len()
        invariant
            i <= apps_mode.cached_related_files@.len(),
            files == views(apps_mode.cached_related_files@),
            apps_mode.apps == old(apps_mode).apps,
            apps_mode.app_sizes == old(apps_mode).app_sizes,
            apps_mode.selected_app_idx == old(apps_mode).selected_app_idx,
            apps_mode.uninstall_result == old(apps_mode).uninstall_result,
            apps_mode.cached_related_files == old(apps_mode).cached_related_files,
            forall|row: usize|
                #![trigger apps_mode.selected_related@.contains(row)]
                apps_mode.selected_related@.contains(row) <==> start.contains(row) || row == 0
                    || (1 <= row <= i && !files[row - 1].category.protected()),
        decreases apps_mode.cached_related_files.len() - i,
    {
        assert(files[i as int] == apps_mode.cached_related_files@[i as int]@);
        if !apps_mode.cached_related_files[i].category.is_protected() {
            apps_mode.selected_related.insert(i + 1);
        }
        i += 1;
    }
    assert(apps_mode.selected_related@ =~= start.union(all_rows(files)));
}

/// A key on the review before an uninstall. Enter asks for the uninstall of
/// the application with the related files that are selected; its result goes
/// to `uninstall_finished`.
pub fn handle_uninstall_review_key(ctx: &mut UninstallReviewContext, code: KeyCode) -> (request:
    Option<UninstallRequest>)
    ensures
        final(ctx).snapshot() == uninstall_review_key(
            old(ctx).snapshot(),
            views(old(ctx).apps_mode.cached_related_files@),
            code,
        ),
        match request {
            Some(req) => {
                &&& code == KeyCode::Enter
                &&& old(ctx).apps_mode.selected_app_idx == Some(req.app_idx)
                &&& req.app_idx < old(ctx).apps_mode.apps@.len()
                &&& req.app.path@ == old(ctx).apps_mode.apps@[req.app_idx as int].path@
                &&& req.app.known_info() == old(ctx).apps_mode.apps@[req.app_idx as int].known_info()
                &&& req.app.known_size() == old(ctx).apps_mode.apps@[req.app_idx as int].known_size()
                &&& views(req.related@) == selected_files(
                    views(old(ctx).apps_mode.cached_related_files@),
                    old(ctx).apps_mode.selected_related@,
                )
            },
            None => code != KeyCode::Enter || match old(ctx).apps_mode.selected_app_idx {
                Some(idx) => idx >= old(ctx).apps_mode.apps@.len(),
                None => true,
            },
        },
        final(ctx).apps_mode.apps == old(ctx).apps_mode.apps,
        final(ctx).apps_mode.app_sizes == old(ctx).apps_mode.app_sizes,
        final(ctx).apps_mode.uninstall_result == old(ctx).apps_mode.uninstall_result,
        final(ctx).apps_mode.cached_related_files == old(ctx).apps_mode.cached_related_files,
        *final(final(ctx).list_state) == *final(old(ctx).list_state),
        *final(final(ctx).apps_mode) == *final(old(ctx).apps_mode),
        *final(final(ctx).mode) == *final(old(ctx).mode),
        *final(final(ctx).prev_mode) == *final(old(ctx).prev_mode),
{
    broadcast use vstd::std_specs::hash::group_hash_axioms;

    match code {
        KeyCode::Esc => {
            *ctx.mode = AppMode::AppList;
            ctx.apps_mode.selected_related.clear();
            ctx.apps_mode.selected_app_idx = None;
            None
        },
        KeyCode::Char(c) => {
            if c == 'q' {
                *ctx.mode = AppMode::AppList;
                ctx.apps_mode.selected_related.clear();
                ctx.apps_mode.selected_app_idx = None;
            } else if c == ' ' {
                match ctx.list_state.selected() {
                    Some(row) => {
                        if ctx.apps_mode.selected_related.contains(&row) {
                            ctx.apps_mode.selected_related.remove(&row);
                        } else {
                            ctx.apps_mode.selected_related.insert(row);
                        }
                    },
                    None => {},
                }
            } else if c == 'a' {
                select_all_related(ctx.apps_mode);
            } else if c == 'n' {
                ctx.apps_mode.selected_related.clear();
            } else if c == '?' {
                *ctx.prev_mode = Some(*ctx.mode);
                *ctx.mode = AppMode::Help;
            }
            None
        },
        KeyCode::Up => {
            crate::tui::logic::navigation::navigate_up(ctx.list_state);
            None
        },
        KeyCode::Down => {
            let max = ctx.apps_mode.cached_related_files.len();
            match ctx.list_state.selected() {
                Some(current) => {
                    if current < max {
                        ctx.list_state.select(Some(current + 1));
                    }
                },
                None => {},
            }
            None
        },
        KeyCode::Enter => {
            let app_idx = match ctx.apps_mode.selected_app_idx {
                Some(idx) => idx,
                None => {
                    return None;
                },
            };
            if app_idx >= ctx.apps_mode.apps.len() {
                return None;
            }
            let app = ctx.apps_mode.apps[app_idx].clone();
            let ghost files = views(ctx.apps_mode.cached_related_files@);
            let ghost rows = ctx.apps_mode.selected_related@;
            let mut related: Vec<RelatedFile> = Vec::new();
            let mut i: usize = 0;
            assert(views(related@) =~= selected_files(files.take(0), rows));
            while i < ctx.apps_mode.cached_related_files.len()
                invariant
                    i <= ctx.apps_mode.cached_related_files@.len(),
                    files == views(ctx.apps_mode.cached_related_files@),
                    rows == ctx.apps_mode.selected_related@,
                    views(related@) == selected_files(files.take(i as int), rows),
                    *ctx == *old(ctx),
                decreases ctx.apps_mode.cached_related_files.len() - i,
            {
                proof {
                    assert(files.take(i + 1).drop_last() == files.take(i as int));
                    assert(files.take(i + 1).last() == ctx.apps_mode.cached_related_files@[i as int]@);
                }
                let ghost before = related@;
                if ctx.apps_mode.selected_related.contains(&(i + 1)) {
                    let file = ctx.apps_mode.cached_related_files[i].clone();
                    related.push(file);
                    assert(views(related@) =~= views(before).push(file@));
                }
                i += 1;
            }
            assert(files.take(files.len() as int) == files);
            Some(UninstallRequest { app_idx, app, related })
        },
        _ => None,
    }
}

/// Takes in the result of the uninstall of the application at `app_idx`:
/// the result is shown, an application that was deleted leaves the list,
/// and the review's selection is forgotten.
pub fn uninstall_finished(
    ctx: &mut UninstallReviewContext,
    app_idx: usize,
    result: UninstallResult,
)
    ensures
        *final(ctx).mode == AppMode::UninstallResult,
        final(ctx).apps_mode.selected_related@ == Set::<usize>::empty(),
        final(ctx).apps_mode.selected_app_idx is None,
        final(ctx).apps_mode.cached_related_files@.len() == 0,
        final(ctx).apps_mode.apps@ == if result.deleted_app && app_idx < old(ctx).apps_mode.apps@.len() {
            old(ctx).apps_mode.apps@.remove(app_idx as int)
        } else {
            old(ctx).apps_mode.apps@
        },
        final(ctx).apps_mode.app_sizes == old(ctx).apps_mode.app_sizes,
        final(ctx).apps_mode.uninstall_result is Some,
        final(ctx).apps_mode.uninstall_result->0.app_deleted == result.deleted_app,
        final(ctx).apps_mode.uninstall_result->0.related_deleted == result.deleted_related@.len(),
        final(ctx).apps_mode.uninstall_result->0.total_freed == result.total_freed,
        final(ctx).apps_mode.uninstall_result->0.errors == result.errors,
        *final(ctx).list_state == *old(ctx).list_state,
        *final(ctx).prev_mode == *old(ctx).prev_mode,
        *final(final(ctx).list_state) == *final(old(ctx).list_state),
        *final(final(ctx).apps_mode) == *final(old(ctx).apps_mode),
        *final(final(ctx).mode) == *final(old(ctx).mode),
        *final(final(ctx).prev_mode) == *final(old(ctx).prev_mode),
{
    broadcast use vstd::std_specs::hash::group_hash_axioms;

    let deleted = result.deleted_app;
    ctx.apps_mode.uninstall_result = Some(UninstallResultDisplay::of(result));
    if deleted && app_idx < ctx.apps_mode.apps.len() {
        ctx.apps_mode.apps.remove(app_idx);
    }
    *ctx.mode = AppMode::UninstallResult;
    ctx.apps_mode.selected_related.clear();
    ctx.apps_mode.selected_app_idx = None;
    ctx.apps_mode.cached_related_files.clear();
}

/// What the result screen of an uninstall can change.
pub struct UninstallResultContext<'a> {
    pub apps_mode: &'a mut AppsModeState,
    pub mode: &'a mut AppMode,
}

/// A key on the result screen of an uninstall: enter, escape and `q` lead
/// back to the list, with nothing selected.
pub fn handle_uninstall_result_key(ctx: &mut UninstallResultContext, code: KeyCode)
    ensures
        code.dismisses() ==> *final(ctx).mode == AppMode::AppList && final(ctx).apps_mode.selected_related@ == Set::<usize>::empty(),
        !code.dismisses() ==> *final(ctx).mode == *old(ctx).mode && final(ctx).apps_mode.selected_related == old(ctx).apps_mode.selected_related,
        final(ctx).apps_mode.apps == old(ctx).apps_mode.apps,
        final(ctx).apps_mode.app_sizes == old(ctx).apps_mode.app_sizes,
        final(ctx).apps_mode.selected_app_idx == old(ctx).apps_mode.selected_app_idx,
        final(ctx).apps_mode.uninstall_result == old(ctx).apps_mode.uninstall_result,
        final(ctx).apps_mode.cached_related_files == old(ctx).apps_mode.cached_related_files,
        *final(final(ctx).apps_mode) == *final(old(ctx).apps_mode),
        *final(final(ctx).mode) == *final(old(ctx).mode),
{
    broadcast use vstd::std_specs::hash::group_hash_axioms;

    if code.is_dismiss() {
        *ctx.mode = AppMode::AppList;
        ctx.apps_mode.selected_related.clear();
    }
}

} // verus!
