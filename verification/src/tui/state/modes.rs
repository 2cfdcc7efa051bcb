//! The screens of the tool and the orders in which findings are listed.

use vstd::prelude::*;

verus! {

/// The screen that is shown.
#[derive(Debug, Clone, Copy, PartialEq, Eq, Structural)]
pub enum AppMode {
    CategorySelect,
    Review,
    ConfirmClean,
    ResultDisplay,
    Help,
    AppList,
    LoadingRelatedFiles,
    UninstallReview,
    UninstallResult,
    SpaceLens,
}

/// The order in which the findings of a group are listed.
#[derive(Debug, Clone, Copy, PartialEq, Eq, Structural)]
pub enum SortMode {
    SizeDesc,
    SizeAsc,
    NameAsc,
    NameDesc,
}

impl Default for SortMode {
    fn default() -> (r: Self)
        ensures
            r == SortMode::SizeDesc,
    {
        SortMode::SizeDesc
    }
}

impl SortMode {
    /// The order that follows `self` when the user asks for the next one.
    pub open spec fn successor(self) -> SortMode {
        match self {
            SortMode::SizeDesc => SortMode::SizeAsc,
            SortMode::SizeAsc => SortMode::NameAsc,
            SortMode::NameAsc => SortMode::NameDesc,
            SortMode::NameDesc => SortMode::SizeDesc,
        }
    }

    /// The text that names the order on screen.
    pub open spec fn caption(self) -> Seq<char> {
        match self {
            SortMode::SizeDesc => "Size ↓"@,
            SortMode::SizeAsc => "Size ↑"@,
            SortMode::NameAsc => "Name A-Z"@,
            SortMode::NameDesc => "Name Z-A"@,
        }
    }

    pub fn next(self) -> (r: Self)
        ensures
            r == self.successor(),
    {
        match self {
            SortMode::SizeDesc => SortMode::SizeAsc,
            SortMode::SizeAsc => SortMode::NameAsc,
            SortMode::NameAsc => SortMode::NameDesc,
            SortMode::NameDesc => SortMode::SizeDesc,
        }
    }

    pub fn label(self) -> (r: &'static str)
        ensures
            r@ == self.caption(),
    {
        match self {
            SortMode::SizeDesc => "Size ↓",
            SortMode::SizeAsc => "Size ↑",
            SortMode::NameAsc => "Name A-Z",
            SortMode::NameDesc => "Name Z-A",
        }
    }
}

/// Asking for the next order four times leads back to the first.
pub proof fn lemma_sort_modes_cycle(mode: SortMode)
    ensures
        mode.successor().successor().successor().successor() == mode,
        mode.successor() != mode,
{
}

} // verus!
