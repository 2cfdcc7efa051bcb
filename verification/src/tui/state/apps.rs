//! The state of the application list and of an uninstall.

use crate::uninstaller::{AppBundle, RelatedFile, UninstallResult};
use std::collections::{HashMap, HashSet};
use vstd::prelude::*;

verus! {

/// What the result screen shows of an uninstall.
#[derive(Debug)]
pub struct UninstallResultDisplay {
    pub app_deleted: bool,
    pub related_deleted: usize,
    pub total_freed: u64,
    pub errors: Vec<String>,
}

impl Default for UninstallResultDisplay {
    fn default() -> (r: Self)
        ensures
            !r.app_deleted,
            r.related_deleted == 0,
            r.total_freed == 0,
            r.errors@.len() == 0,
    {
        UninstallResultDisplay {
            app_deleted: false,
            related_deleted: 0,
            total_freed: 0,
            errors: Vec::new(),
        }
    }
}

impl UninstallResultDisplay {
    /// What the result screen shows of `result`.
    pub fn of(result: UninstallResult) -> (r: Self)
        ensures
            r.app_deleted == result.deleted_app,
            r.related_deleted == result.deleted_related@.len(),
            r.total_freed == result.total_freed,
            r.errors == result.errors,
    {
        UninstallResultDisplay {
            app_deleted: result.deleted_app,
            related_deleted: result.deleted_related.len(),
            total_freed: result.total_freed,
            errors: result.errors,
        }
    }
}

/// The state of the application list and of the review before an uninstall.
///
/// In the review, row 0 is the application itself and row `i + 1` the
/// `i`-th related file; `selected_related` holds the rows that are selected.
pub struct AppsModeState {
    pub apps: Vec<AppBundle>,
    /// The sizes of the applications that were measured, by position.
    pub app_sizes: HashMap<usize, u64>,
    pub selected_app_idx: Option<usize>,
    pub selected_related: HashSet<usize>,
    pub uninstall_result: Option<UninstallResultDisplay>,
    pub cached_related_files: Vec<RelatedFile>,
}

impl Default for AppsModeState {
    fn default() -> (r: Self)
        ensures
            r.apps@.len() == 0,
            r.app_sizes@ == Map::<usize, u64>::empty(),
            r.selected_app_idx is None,
            r.selected_related@ == Set::<usize>::empty(),
            r.uninstall_result is None,
            r.cached_related_files@.len() == 0,
    {
        AppsModeState {
            apps: Vec::new(),
            app_sizes: HashMap::new(),
            selected_app_idx: None,
            selected_related: HashSet::new(),
            uninstall_result: None,
            cached_related_files: Vec::new(),
        }
    }
}

impl AppsModeState {
    /// Takes in the sizes that were measured since the last call: the size
    /// of the application at each position, later ones over earlier ones.
    pub fn poll_app_sizes(&mut self, sizes: &Vec<(usize, u64)>)
        ensures
            final(self).app_sizes@ == sized(old(self).app_sizes@, sizes@),
            final(self).apps == old(self).apps,
            final(self).selected_app_idx == old(self).selected_app_idx,
            final(self).selected_related == old(self).selected_related,
            final(self).uninstall_result == old(self).uninstall_result,
            final(self).cached_related_files == old(self).cached_related_files,
    {
        broadcast use vstd::std_specs::hash::group_hash_axioms;

        let mut i: usize = 0;
        assert(sizes@.take(0) =~= Seq::<(usize, u64)>::empty());
        while i < sizes.len()
            invariant
                i <= sizes@.len(),
                self.app_sizes@ == sized(old(self).app_sizes@, sizes@.take(i as int)),
                self.apps == old(self).apps,
                self.selected_app_idx == old(self).selected_app_idx,
                self.selected_related == old(self).selected_related,
                self.uninstall_result == old(self).uninstall_result,
                self.cached_related_files == old(self).cached_related_files,
            decreases sizes.len() - i,
        {
            assert(sizes@.take(i + 1).drop_last() == sizes@.take(i as int));
            self.app_sizes.insert(sizes[i].0, sizes[i].1);
            i += 1;
        }
        assert(sizes@.take(sizes@.len() as int) == sizes@);
    }
}

/// The sizes `known` with those of `sizes` taken in, in order.
pub open spec fn sized(known: Map<usize, u64>, sizes: Seq<(usize, u64)>) -> Map<usize, u64>
    decreases sizes.len(),
{
    if sizes.len() == 0 {
        known
    } else {
        sized(known, sizes.drop_last()).insert(sizes.last().0, sizes.last().1)
    }
}

} // verus!
