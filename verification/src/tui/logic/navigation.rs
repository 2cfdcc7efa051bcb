//! Moving the cursor within a list and from one group of findings to the
//! next.

use crate::plugin::ScanReport;
use crate::tui::state::ListState;
use vstd::prelude::*;

verus! {

/// The cursor one row up, unless it is on the first row or there is none.
pub open spec fn moved_up(cursor: Option<usize>) -> Option<usize> {
    match cursor {
        Some(row) => if row > 0 {
            Some((row - 1) as usize)
        } else {
            cursor
        },
        None => None,
    }
}

/// The cursor one row down in a list of `max_items` rows, unless it is on
/// the last row or beyond, or there is none.
pub open spec fn moved_down(cursor: Option<usize>, max_items: usize) -> Option<usize> {
    match cursor {
        Some(row) => if row + 1 < max_items {
            Some((row + 1) as usize)
        } else {
            cursor
        },
        None => None,
    }
}

pub fn navigate_up(list_state: &mut ListState)
    ensures
        final(list_state).cursor() == moved_up(old(list_state).cursor()),
{
    match list_state.selected() {
        Some(current) => {
            if current > 0 {
                list_state.select(Some(current - 1));
            }
        },
        None => {},
    }
}

pub fn navigate_down(list_state: &mut ListState, max_items: usize)
    ensures
        final(list_state).cursor() == moved_down(old(list_state).cursor(), max_items),
{
    let max = if max_items > 0 {
        max_items - 1
    } else {
        0
    };
    match list_state.selected() {
        Some(current) => {
            if current < max {
                list_state.select(Some(current + 1));
            }
        },
        None => {},
    }
}

/// Goes to the group before the selected one, with the cursor on its first
/// row; stays on the first group.
pub fn navigate_category_prev(selected_category: &mut usize, list_state: &mut ListState)
    ensures
        *old(selected_category) > 0 ==> *final(selected_category) == *old(selected_category) - 1
            && final(list_state).cursor() == Some(0usize),
        *old(selected_category) == 0 ==> *final(selected_category) == 0 && final(list_state).cursor() == old(list_state).cursor(),
{
    if *selected_category > 0 {
        *selected_category = *selected_category - 1;
        list_state.select(Some(0));
    }
}

/// Number of groups of a report that may be absent.
pub open spec fn group_count(report: Option<&ScanReport>) -> nat {
    match report {
        Some(r) => r@.categories.len(),
        None => 0,
    }
}

/// Goes to the group after the selected one, with the cursor on its first
/// row; stays on the last group, and where there is no report.
pub fn navigate_category_next(
    selected_category: &mut usize,
    list_state: &mut ListState,
    report: Option<&ScanReport>,
)
    ensures
        *old(selected_category) + 1 < group_count(report) ==> *final(selected_category) == *old(selected_category) + 1 && final(list_state).cursor() == Some(0usize),
        *old(selected_category) + 1 >= group_count(report) ==> *final(selected_category) == *old(selected_category) && final(list_state).cursor() == old(list_state).cursor(),
{
    match report {
        Some(r) => {
            let n = r.categories().len();
            assert(n == r@.categories.len());
            if n > 0 && *selected_category < n - 1 {
                *selected_category = *selected_category + 1;
                list_state.select(Some(0));
            }
        },
        None => {},
    }
}

} // verus!
