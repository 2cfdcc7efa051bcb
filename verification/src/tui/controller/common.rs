//! Keys of the screens that only confirm, show a result or help.

use crate::collections::StringSet;
use crate::plugin::{CleanConfig, CleanResult, ScanResult};
use crate::sorting::views;
use crate::tui::logic::selection::{chosen, selected_of};
use crate::tui::state::{AppMode, CleanResultDisplay};
use vstd::prelude::*;

verus! {

/// A key that was pressed.
#[derive(Debug, Clone, Copy, PartialEq, Eq, Structural)]
pub enum KeyCode {
    Char(char),
    Up,
    Down,
    Left,
    Right,
    Enter,
    Esc,
    Tab,
    Backspace,
    /// Any key that no screen uses.
    Other,
}

impl KeyCode {
    /// The key closes a screen that shows a result: enter, escape or `q`.
    pub open spec fn dismisses(self) -> bool {
        self == KeyCode::Enter || self == KeyCode::Esc || self == KeyCode::Char('q')
    }

    /// The key confirms: `y` or enter.
    pub open spec fn confirms(self) -> bool {
        self == KeyCode::Char('y') || self == KeyCode::Enter
    }

    /// The key declines: `n` or escape.
    pub open spec fn declines(self) -> bool {
        self == KeyCode::Char('n') || self == KeyCode::Esc
    }

    /// The key closes the help: `q`, escape or `?`.
    pub open spec fn closes_help(self) -> bool {
        self == KeyCode::Char('q') || self == KeyCode::Esc || self == KeyCode::Char('?')
    }

    /// Whether the key closes a screen that shows a result.
    pub fn is_dismiss(self) -> (r: bool)
        ensures
            r == self.dismisses(),
    {
        match self {
            KeyCode::Enter => true,
            KeyCode::Esc => true,
            KeyCode::Char(c) => c == 'q',
            _ => false,
        }
    }

    /// Whether the key confirms.
    pub fn is_confirm(self) -> (r: bool)
        ensures
            r == self.confirms(),
    {
        match self {
            KeyCode::Enter => true,
            KeyCode::Char(c) => c == 'y',
            _ => false,
        }
    }

    /// Whether the key declines.
    pub fn is_decline(self) -> (r: bool)
        ensures
            r == self.declines(),
    {
        match self {
            KeyCode::Esc => true,
            KeyCode::Char(c) => c == 'n',
            _ => false,
        }
    }

    /// Whether the key is the character `c`.
    pub fn is_char(self, c: char) -> (r: bool)
        ensures
            r == (self == KeyCode::Char(c)),
    {
        match self {
            KeyCode::Char(k) => k == c,
            _ => false,
        }
    }
}

/// What the screen that confirms a clean-up works on.
pub struct ConfirmContext<'a> {
    pub mode: &'a mut AppMode,
    pub selected_items: &'a StringSet,
    pub report_items: Vec<ScanResult>,
    pub clean_result: &'a mut Option<CleanResultDisplay>,
}

/// What confirming leads to.
#[derive(Debug)]
pub enum ConfirmDecision {
    /// Clean these findings, then hand the result to `clean_finished`.
    Clean(Vec<ScanResult>),
    /// Nothing is to be done.
    Nothing,
}

/// The settings of a clean-up that was confirmed on screen: no dry run, and
/// every deletion is logged.
pub fn confirmed_clean_config() -> (r: CleanConfig)
    ensures
        !r.dry_run,
        r.log_history,
{
    CleanConfig { dry_run: false, log_history: true }
}

/// A key on the screen that confirms a clean-up: `y` and enter ask for the
/// clean-up of the findings that are selected; `n` and escape lead back to
/// the review.
pub fn handle_confirm_key(ctx: &mut ConfirmContext, code: KeyCode) -> (r: ConfirmDecision)
    ensures
        match r {
            ConfirmDecision::Clean(items) => code.confirms() && views(items@) == chosen(
                views(old(ctx).report_items@),
                old(ctx).selected_items@,
            ),
            ConfirmDecision::Nothing => !code.confirms(),
        },
        *final(ctx).mode == if !code.confirms() && code.declines() {
            AppMode::Review
        } else {
            *old(ctx).mode
        },
        *final(ctx).clean_result == *old(ctx).clean_result,
        final(ctx).report_items == old(ctx).report_items,
        final(ctx).selected_items == old(ctx).selected_items,
        *final(final(ctx).mode) == *final(old(ctx).mode),
        *final(final(ctx).clean_result) == *final(old(ctx).clean_result),
{
    if code.is_confirm() {
        ConfirmDecision::Clean(selected_of(&ctx.report_items, ctx.selected_items))
    } else {
        if code.is_decline() {
            *ctx.mode = AppMode::Review;
        }
        ConfirmDecision::Nothing
    }
}

/// Takes in the result of the clean-up that was confirmed: it is shown on
/// the result screen.
pub fn clean_finished(ctx: &mut ConfirmContext, result: &CleanResult)
    ensures
        *final(ctx).mode == AppMode::ResultDisplay,
        *final(ctx).clean_result == Some(
            CleanResultDisplay {
                success_count: result.success_count,
                failed_count: result.failed_count,
                total_freed: result.total_freed,
                duration_ms: result.duration_ms,
            },
        ),
        final(ctx).report_items == old(ctx).report_items,
        final(ctx).selected_items == old(ctx).selected_items,
        *final(final(ctx).mode) == *final(old(ctx).mode),
        *final(final(ctx).clean_result) == *final(old(ctx).clean_result),
{
    *ctx.clean_result = Some(
        CleanResultDisplay {
            success_count: result.success_count,
            failed_count: result.failed_count,
            total_freed: result.total_freed,
            duration_ms: result.duration_ms,
        },
    );
    *ctx.mode = AppMode::ResultDisplay;
}

/// What the result screen of a clean-up can change.
pub struct ResultContext<'a> {
    pub mode: &'a mut AppMode,
}

/// A key on the result screen: enter, escape and `q` lead back to the
/// review.
pub fn handle_result_key(ctx: &mut ResultContext, code: KeyCode)
    ensures
        *final(ctx).mode == if code.dismisses() {
            AppMode::Review
        } else {
            *old(ctx).mode
        },
        *final(final(ctx).mode) == *final(old(ctx).mode),
{
    if code.is_dismiss() {
        *ctx.mode = AppMode::Review;
    }
}

/// What the help screen can change.
pub struct HelpContext<'a> {
    pub mode: &'a mut AppMode,
    pub prev_mode: &'a mut Option<AppMode>,
}

/// A key on the help screen: `q`, escape and `?` lead back to the screen
/// from which help was asked, or to the review where none is remembered.
pub fn handle_help_key(ctx: &mut HelpContext, code: KeyCode)
    ensures
        code.closes_help() ==> *final(ctx).mode == match *old(ctx).prev_mode {
            Some(m) => m,
            None => AppMode::Review,
        } && *final(ctx).prev_mode == None::<AppMode>,
        !code.closes_help() ==> *final(ctx).mode == *old(ctx).mode && *final(ctx).prev_mode == *old(ctx).prev_mode,
        *final(final(ctx).mode) == *final(old(ctx).mode),
        *final(final(ctx).prev_mode) == *final(old(ctx).prev_mode),
{
    if code.is_char('q') || code.is_char('?') || code == KeyCode::Esc {
        *ctx.mode = match *ctx.prev_mode {
            Some(m) => m,
            None => AppMode::Review,
        };
        *ctx.prev_mode = None;
    }
}

} // verus!
