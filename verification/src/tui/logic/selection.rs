//! Selecting findings for a clean-up, by their identity.

use crate::collections::StringSet;
use crate::plugin::{ScanResult, ScanResultView};
use crate::sorting::views;
use vstd::prelude::*;

verus! {

/// The selection after the focused finding was toggled: it is selected if
/// it was not, and no longer selected if it was. Without a focused finding
/// nothing changes.
pub open spec fn toggled(selected: Set<Seq<char>>, focused: Option<Seq<char>>) -> Set<Seq<char>> {
    match focused {
        Some(id) => if selected.contains(id) {
            selected.remove(id)
        } else {
            selected.insert(id)
        },
        None => selected,
    }
}

pub fn toggle_selection(selected_items: &mut StringSet, focused_item: Option<&ScanResult>)
    ensures
        final(selected_items)@ == toggled(
            old(selected_items)@,
            match focused_item {
                Some(item) => Some(item.id@),
                None => None,
            },
        ),
{
    match focused_item {
        Some(item) => {
            if selected_items.contains(item.id.as_str()) {
                selected_items.remove(item.id.as_str());
            } else {
                selected_items.insert(item.id.clone());
            }
        },
        None => {},
    }
}

/// The identities of `items`.
pub open spec fn ids_of(items: Seq<ScanResultView>) -> Set<Seq<char>> {
    Set::new(|id: Seq<char>| exists|i: int| 0 <= i < items.len() && items[i].id == id)
}

/// Selects every finding of `items`, beside what is selected.
pub fn select_all_in_category(selected_items: &mut StringSet, items: &Vec<ScanResult>)
    ensures
        final(selected_items)@ == old(selected_items)@.union(ids_of(views(items@))),
{
    let ghost all = views(items@);
    let mut i: usize = 0;
    assert(selected_items@ =~= old(selected_items)@.union(ids_of(all.take(0))));
    while i < items.len()
        invariant
            i <= items@.len(),
            all == views(items@),
            selected_items@ == old(selected_items)@.union(ids_of(all.take(i as int))),
        decreases items.len() - i,
    {
        let ghost before = selected_items@;
        selected_items.insert(items[i].id.clone());
        proof {
            let id = items@[i as int].id@;
            let head = all.take(i as int);
            let next = all.take(i + 1);
            assert(all[i as int].id == id);
            assert(next[i as int] == all[i as int]);
            assert forall|x: Seq<char>| #[trigger]
                ids_of(next).contains(x) == (ids_of(head).contains(x) || x == id) by {
                if ids_of(head).contains(x) {
                    let k = choose|k: int| 0 <= k < head.len() && head[k].id == x;
                    assert(next[k].id == x);
                }
                if ids_of(next).contains(x) && x != id {
                    let k = choose|k: int| 0 <= k < next.len() && next[k].id == x;
                    assert(head[k].id == x);
                }
            }
            assert(selected_items@ =~= old(selected_items)@.union(ids_of(next)));
        }
        i += 1;
    }
    assert(all.take(items@.len() as int) == all);
}

/// Takes every finding out of the selection.
pub fn deselect_all(selected_items: &mut StringSet)
    ensures
        final(selected_items)@ == Set::<Seq<char>>::empty(),
{
    selected_items.clear();
}

/// The findings of `items` that are selected, in their order.
pub open spec fn chosen(items: Seq<ScanResultView>, selected: Set<Seq<char>>) -> Seq<
    ScanResultView,
> {
    items.filter(|item: ScanResultView| selected.contains(item.id))
}

/// Copies of the findings of `items` that are selected, in their order.
pub fn selected_of(items: &Vec<ScanResult>, selected_items: &StringSet) -> (r: Vec<ScanResult>)
    ensures
        views(r@) == chosen(views(items@), selected_items@),
{
    let ghost all = views(items@);
    let ghost picked = |item: ScanResultView| selected_items@.contains(item.id);
    let mut r: Vec<ScanResult> = Vec::new();
    let mut i: usize = 0;
    proof {
        reveal(Seq::filter);
        assert(all.take(0).filter(picked) =~= views(r@));
    }
    while i < items.len()
        invariant
            i <= items@.len(),
            all == views(items@),
            picked == |item: ScanResultView| selected_items@.contains(item.id),
            views(r@) == all.take(i as int).filter(picked),
        decreases items.len() - i,
    {
        proof {
            reveal(Seq::filter);
            assert(all.take(i + 1).drop_last() == all.take(i as int));
            assert(all.take(i + 1).last() == items@[i as int]@);
        }
        let ghost before = r@;
        if selected_items.contains(items[i].id.as_str()) {
            let copy = items[i].clone();
            r.push(copy);
            assert(views(r@) =~= views(before).push(copy@));
        }
        i += 1;
    }
    assert(all.take(items@.len() as int) == all);
    r
}

} // verus!
