//! The cursor of a list on screen.

use vstd::prelude::*;

verus! {

/// Which row of a list has the cursor, if any.
#[derive(Debug, Clone, Copy, PartialEq, Eq, Structural)]
pub struct ListState {
    selected: Option<usize>,
}

impl ListState {
    /// The row that has the cursor.
    pub closed spec fn cursor(&self) -> Option<usize> {
        self.selected
    }

    /// A list without a cursor.
    pub fn new() -> (r: Self)
        ensures
            r.cursor() is None,
    {
        ListState { selected: None }
    }

    /// The row that has the cursor.
    pub fn selected(&self) -> (r: Option<usize>)
        ensures
            r == self.cursor(),
    {
        self.selected
    }

    /// Puts the cursor on `index`, or takes it away.
    pub fn select(&mut self, index: Option<usize>)
        ensures
            final(self).cursor() == index,
    {
        self.selected = index;
    }
}

impl Default for ListState {
    fn default() -> (r: Self)
        ensures
            r.cursor() is None,
    {
        Self::new()
    }
}

} // verus!
