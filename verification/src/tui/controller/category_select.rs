//! Keys of the screen on which the scanners are switched on and off.

use super::common::KeyCode;
use crate::config::Config;
use crate::plugin::registry::ReportView;
use crate::plugin::traits::texts;
use crate::plugin::ScanReport;
use crate::tui::logic::navigation::{moved_down, moved_up, navigate_down, navigate_up};
use crate::tui::service::scanner::{
    fresh_progress, report_at_start, report_view, selected, start_scan, ScanSession,
};
use crate::tui::state::app_state::{enabled_ids, enabled_scanner_ids};
use crate::tui::state::{AppMode, ListState, ScanProgress, ScanProgressView, ScannerInfo};
use vstd::prelude::*;

verus! {

/// What the scanner selection works on.
pub struct CategorySelectContext<'a> {
    pub list_state: &'a mut ListState,
    pub available_scanners: &'a mut Vec<ScannerInfo>,
    pub mode: &'a mut AppMode,
    pub should_quit: &'a mut bool,
    pub config: &'a Config,
    pub report: &'a mut Option<ScanReport>,
    pub scan_progress: &'a mut ScanProgress,
}

/// The scanners `scanners`, each with its switch set by `switch`.
pub open spec fn switched(
    scanners: Seq<ScannerInfo>,
    switch: spec_fn(int, bool) -> bool,
) -> Seq<(Seq<char>, Seq<char>, bool)> {
    Seq::new(
        scanners.len(),
        |i: int| (scanners[i].id@, scanners[i].name@, switch(i, scanners[i].enabled)),
    )
}

/// Identity, name and switch of each scanner.
pub open spec fn rows(scanners: Seq<ScannerInfo>) -> Seq<(Seq<char>, Seq<char>, bool)> {
    switched(scanners, |i: int, on: bool| on)
}

/// What a key on the scanner selection can change.
pub struct CategorySelectView {
    pub cursor: Option<usize>,
    pub scanners: Seq<(Seq<char>, Seq<char>, bool)>,
    pub mode: AppMode,
    pub should_quit: bool,
    pub report: Option<ReportView>,
    pub progress: ScanProgressView,
}

impl<'a> CategorySelectContext<'a> {
    /// What a key can change, as it is now.
    pub open spec fn snapshot(&self) -> CategorySelectView {
        CategorySelectView {
            cursor: self.list_state.cursor(),
            scanners: rows(self.available_scanners@),
            mode: *self.mode,
            should_quit: *self.should_quit,
            report: report_view(*self.report),
            progress: self.scan_progress@,
        }
    }
}

/// The rows with their switches changed by `switch`.
pub open spec fn reswitched(
    scanners: Seq<(Seq<char>, Seq<char>, bool)>,
    switch: spec_fn(int, bool) -> bool,
) -> Seq<(Seq<char>, Seq<char>, bool)> {
    Seq::new(scanners.len(), |i: int| (scanners[i].0, scanners[i].1, switch(i, scanners[i].2)))
}

/// The identities of the rows that are switched on.
pub open spec fn switched_on(scanners: Seq<(Seq<char>, Seq<char>, bool)>) -> Seq<Seq<char>> {
    crate::search::collect(
        scanners,
        |s: (Seq<char>, Seq<char>, bool)|
            if s.2 {
                Some(s.0)
            } else {
                None
            },
    )
}

/// The state after the key `code`: `q` quits; the arrows move the cursor;
/// space flips the switch under the cursor, `a` switches all scanners on and
/// `n` all off; enter and tab go to the review if there is anything to
/// review; `r` begins a scan of the scanners that are switched on.
pub open spec fn category_select_key(s: CategorySelectView, code: KeyCode) -> CategorySelectView {
    match code {
        KeyCode::Char(c) => if c == 'q' {
            CategorySelectView { should_quit: true, ..s }
        } else if c == ' ' {
            match s.cursor {
                Some(row) => CategorySelectView {
                    scanners: reswitched(
                        s.scanners,
                        |i: int, on: bool|
                            if i == row {
                                !on
                            } else {
                                on
                            },
                    ),
                    ..s
                },
                None => s,
            }
        } else if c == 'a' {
            CategorySelectView { scanners: reswitched(s.scanners, |i: int, on: bool| true), ..s }
        } else if c == 'n' {
            CategorySelectView { scanners: reswitched(s.scanners, |i: int, on: bool| false), ..s }
        } else if c == 'r' {
            let ids = switched_on(s.scanners);
            if ids.len() == 0 {
                s
            } else {
                CategorySelectView {
                    report: Some(report_at_start(s.report, ids)),
                    progress: fresh_progress(ids.len() as usize),
                    mode: AppMode::Review,
                    ..s
                }
            }
        } else {
            s
        },
        KeyCode::Up => CategorySelectView { cursor: moved_up(s.cursor), ..s },
        KeyCode::Down => CategorySelectView {
            cursor: moved_down(s.cursor, s.scanners.len() as usize),
            ..s
        },
        KeyCode::Enter | KeyCode::Tab => match s.report {
            Some(r) => if r.categories.len() > 0 {
                CategorySelectView { mode: AppMode::Review, ..s }
            } else {
                s
            },
            None => s,
        },
        _ => s,
    }
}

fn switch_all(scanners: &mut Vec<ScannerInfo>, on: bool)
    ensures
        rows(final(scanners)@) == reswitched(rows(old(scanners)@), |i: int, was: bool| on),
{
    let ghost before = rows(scanners@);
    let mut taken: Vec<ScannerInfo> = Vec::new();
    core::mem::swap(scanners, &mut taken);
    let mut rest = crate::plugin::registry::reversed(taken);
    assert(before.len() == rest.len());
    while rest.len() > 0
        invariant
            scanners@.len() + rest@.len() == before.len(),
            forall|j: int|
                0 <= j < rest@.len() ==> (#[trigger] rest@[j]).id@ == before[before.len() - 1
                    - j].0 && rest@[j].name@ == before[before.len() - 1 - j].1,
            forall|k: int|
                0 <= k < scanners@.len() ==> (#[trigger] scanners@[k]).id@ == before[k].0
                    && scanners@[k].name@ == before[k].1 && scanners@[k].enabled == on,
        decreases rest.len(),
    {
        let mut s = rest.pop().unwrap();
        s.enabled = on;
        scanners.push(s);
    }
    assert(rows(scanners@) =~= reswitched(before, |i: int, was: bool| on));
}

fn flip(scanners: &mut Vec<ScannerInfo>, row: usize)
    ensures
        rows(final(scanners)@) == reswitched(
            rows(old(scanners)@),
            |i: int, on: bool|
                if i == row {
                    !on
                } else {
                    on
                },
        ),
{
    let ghost before = rows(scanners@);
    if row < scanners.len() {
        let mut s = scanners.remove(row);
        s.enabled = !s.enabled;
        scanners.insert(row, s);
    }
    assert(rows(scanners@) =~= reswitched(
        before,
        |i: int, on: bool|
            if i == row {
                !on
            } else {
                on
            },
    ));
}

/// The identities that are switched on, read off the rows or off the
/// scanners, are the same.
proof fn lemma_switched_on(scanners: Seq<ScannerInfo>)
    ensures
        switched_on(rows(scanners)) == enabled_ids(scanners),
    decreases scanners.len(),
{
    if scanners.len() > 0 {
        lemma_switched_on(scanners.drop_last());
        assert(rows(scanners).drop_last() =~= rows(scanners.drop_last()));
    }
}

/// A key on the scanner selection. Returns the session to run where the key
/// began a scan.
pub fn handle_category_select_key(ctx: &mut CategorySelectContext, code: KeyCode) -> (session:
    Option<ScanSession>)
    ensures
        final(ctx).snapshot() == category_select_key(old(ctx).snapshot(), code),
        session is Some <==> code == KeyCode::Char('r') && switched_on(
            old(ctx).snapshot().scanners,
        ).len() > 0,
        session is Some ==> session->0.scanners@ == selected(
            switched_on(old(ctx).snapshot().scanners),
        ) && session->0.config.min_size == old(ctx).config.scan.min_size_bytes
            && session->0.config.max_depth == old(ctx).config.scan.max_depth
            && session->0.config.excluded_paths@ == old(ctx).config.scan.excluded_paths@,
        final(ctx).config == old(ctx).config,
        *final(final(ctx).list_state) == *final(old(ctx).list_state),
        *final(final(ctx).available_scanners) == *final(old(ctx).available_scanners),
        *final(final(ctx).mode) == *final(old(ctx).mode),
        *final(final(ctx).should_quit) == *final(old(ctx).should_quit),
        *final(final(ctx).report) == *final(old(ctx).report),
        *final(final(ctx).scan_progress) == *final(old(ctx).scan_progress),
{
    proof {
        lemma_switched_on(ctx.available_scanners@);
        assert(reswitched(rows(ctx.available_scanners@), |i: int, on: bool| on) =~= rows(
            ctx.available_scanners@,
        ));
    }
    match code {
        KeyCode::Char(c) => {
            if c == 'q' {
                *ctx.should_quit = true;
                None
            } else if c == ' ' {
                match ctx.list_state.selected() {
                    Some(row) => flip(ctx.available_scanners, row),
                    None => {},
                }
                None
            } else if c == 'a' {
                switch_all(ctx.available_scanners, true);
                None
            } else if c == 'n' {
                switch_all(ctx.available_scanners, false);
                None
            } else if c == 'r' {
                let ids = enabled_scanner_ids(ctx.available_scanners);
                assert(texts(ids@).len() == ids@.len());
                start_scan(ctx.config, &ids, ctx.report, ctx.scan_progress, ctx.mode)
            } else {
                None
            }
        },
        KeyCode::Up => {
            navigate_up(ctx.list_state);
            None
        },
        KeyCode::Down => {
            assert(rows(ctx.available_scanners@).len() == ctx.available_scanners@.len());
            navigate_down(ctx.list_state, ctx.available_scanners.len());
            None
        },
        KeyCode::Enter | KeyCode::Tab => {
            let ready = match ctx.report {
                Some(r) => r.categories().len() > 0,
                None => false,
            };
            if ready {
                *ctx.mode = AppMode::Review;
            }
            None
        },
        _ => None,
    }
}

} // verus!
