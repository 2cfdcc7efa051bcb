//! The explorer's listing does not depend on the order in which the updates
//! of different children arrive: what an entry shows in the end is what the
//! last update for its path said.

use crate::plugin::registry::clamp_u64;
use crate::search::{first_match, lemma_first_match, lemma_first_match_is};
use crate::sorting::{lemma_stable_sort_permutes, stable_sort};
use crate::tui::service::disk::{
    applied, closed, merged, merged_size, polled, position_by_path, ScanEventView,
};
use crate::tui::state::space_lens::{
    entries_size, CachedScanView, FolderEntryView, LargestFirst, SpaceLensView,
};
use vstd::prelude::*;

verus! {

/// No two entries of the listing have the same path.
pub open spec fn distinct_paths(entries: Seq<FolderEntryView>) -> bool {
    forall|i: int, j: int| 0 <= i < j < entries.len() ==> entries[i].path != entries[j].path
}

/// The entry that the listing shows for `path`, if it shows one.
pub open spec fn shown(entries: Seq<FolderEntryView>, path: Seq<char>) -> Option<
    FolderEntryView,
> {
    let p = position_by_path(entries, path);
    if p < entries.len() {
        Some(entries[p])
    } else {
        None
    }
}

/// The listing with one update of the browsed directory taken in: merged,
/// then ordered by size, largest first.
pub open spec fn taken_in(entries: Seq<FolderEntryView>, update: FolderEntryView) -> Seq<
    FolderEntryView,
> {
    stable_sort::<FolderEntryView, LargestFirst>(merged(entries, update))
}

/// The listing after the updates `updates` of the browsed directory were
/// taken in, in order.
pub open spec fn listing_after(
    entries: Seq<FolderEntryView>,
    updates: Seq<FolderEntryView>,
) -> Seq<FolderEntryView>
    decreases updates.len(),
{
    if updates.len() == 0 {
        entries
    } else {
        taken_in(listing_after(entries, updates.drop_last()), updates.last())
    }
}

/// The last of `updates` for `path`, if there is one.
pub open spec fn last_for(updates: Seq<FolderEntryView>, path: Seq<char>) -> Option<
    FolderEntryView,
>
    decreases updates.len(),
{
    if updates.len() == 0 {
        None
    } else if updates.last().path == path {
        Some(updates.last())
    } else {
        last_for(updates.drop_last(), path)
    }
}

/// The updates `updates` as events of the scan of `scan_path`.
pub open spec fn as_events(scan_path: Seq<char>, updates: Seq<FolderEntryView>) -> Seq<
    ScanEventView,
> {
    updates.map_values(|u: FolderEntryView| ScanEventView::Update { scan_path, entry: u })
}

/// What the listing shows for a path is the first entry with that path; in
/// a listing with distinct paths it is the only one.
proof fn lemma_shown_is(entries: Seq<FolderEntryView>, k: int)
    requires
        distinct_paths(entries),
        0 <= k < entries.len(),
    ensures
        shown(entries, entries[k].path) == Some(entries[k]),
{
    let found = |e: FolderEntryView| e.path == entries[k].path;
    lemma_first_match_is(entries, found, k);
}

/// Listings that hold the same entries show the same entry for every path,
/// in whatever order they hold them.
proof fn lemma_order_does_not_matter(
    a: Seq<FolderEntryView>,
    b: Seq<FolderEntryView>,
    path: Seq<char>,
)
    requires
        distinct_paths(a),
        a.to_multiset() == b.to_multiset(),
    ensures
        distinct_paths(b),
        shown(b, path) == shown(a, path),
{
    broadcast use vstd::seq_lib::to_multiset_contains;

    assert(a.no_duplicates());
    a.lemma_multiset_has_no_duplicates();
    b.lemma_multiset_has_no_duplicates_conv();
    assert forall|i: int, j: int| 0 <= i < j < b.len() implies b[i].path != b[j].path by {
        assert(b.contains(b[i]) && b.contains(b[j]));
        assert(b.to_multiset().count(b[i]) > 0 && b.to_multiset().count(b[j]) > 0);
        assert(a.contains(b[i]) && a.contains(b[j]));
        let x = choose|x: int| 0 <= x < a.len() && a[x] == b[i];
        let y = choose|y: int| 0 <= y < a.len() && a[y] == b[j];
        assert(x != y);
    }
    let found = |e: FolderEntryView| e.path == path;
    lemma_first_match(a, found);
    let p = position_by_path(a, path);
    if p < a.len() {
        assert(a.contains(a[p]));
        assert(b.to_multiset().count(a[p]) > 0);
        assert(b.contains(a[p]));
        let k = choose|k: int| 0 <= k < b.len() && b[k] == a[p];
        lemma_shown_is(b, k);
    } else {
        assert forall|k: int| 0 <= k < b.len() implies !found(#[trigger] b[k]) by {
            assert(b.contains(b[k]));
            assert(a.to_multiset().count(b[k]) > 0);
            assert(a.contains(b[k]));
            let x = choose|x: int| 0 <= x < a.len() && a[x] == b[k];
            assert(!found(a[x]));
        }
        lemma_first_match_is(b, found, b.len() as int);
    }
}

/// One update changes what the listing shows for its own path, and for no
/// other.
pub proof fn lemma_update_touches_one_path(
    entries: Seq<FolderEntryView>,
    update: FolderEntryView,
    path: Seq<char>,
)
    requires
        distinct_paths(entries),
    ensures
        distinct_paths(taken_in(entries, update)),
        path != update.path ==> shown(taken_in(entries, update), path) == shown(entries, path),
        shown(taken_in(entries, update), update.path) == Some(
            match shown(entries, update.path) {
                Some(e) => FolderEntryView {
                    size: merged_size(e.size, update),
                    scanning: update.scanning,
                    ..e
                },
                None => update,
            },
        ),
{
    let m = merged(entries, update);
    let after = taken_in(entries, update);
    let own = |e: FolderEntryView| e.path == update.path;
    lemma_first_match(entries, own);
    let p = position_by_path(entries, update.path);
    assert(distinct_paths(m));
    assert(position_by_path(m, update.path) == p) by {
        assert forall|k: int| 0 <= k < p implies !own(#[trigger] m[k]) by {
            assert(m[k] == entries[k]);
        }
        lemma_first_match_is(m, own, p);
    }
    if path != update.path {
        let found = |e: FolderEntryView| e.path == path;
        lemma_first_match(entries, found);
        let q = position_by_path(entries, path);
        if q < entries.len() {
            assert(m[q] == entries[q]);
            assert forall|k: int| 0 <= k < q implies !found(#[trigger] m[k]) by {
                if k != p {
                    assert(m[k] == entries[k]);
                }
            }
            lemma_first_match_is(m, found, q);
        } else {
            assert forall|k: int| 0 <= k < m.len() implies !found(#[trigger] m[k]) by {
                if k < entries.len() && k != p {
                    assert(m[k] == entries[k]);
                }
            }
            lemma_first_match_is(m, found, m.len() as int);
        }
        assert(shown(m, path) == shown(entries, path));
    }
    lemma_stable_sort_permutes::<FolderEntryView, LargestFirst>(m);
    lemma_order_does_not_matter(m, after, path);
    lemma_order_does_not_matter(m, after, update.path);
}

/// In whatever order the updates of a scan arrive, the listing shows for
/// each path what the last update for that path said: the state it gave,
/// and, where that update was final, exactly its size. A path without an
/// update shows what it showed before, and no path is listed twice.
pub proof fn lemma_last_update_decides(
    entries: Seq<FolderEntryView>,
    updates: Seq<FolderEntryView>,
    path: Seq<char>,
)
    requires
        distinct_paths(entries),
    ensures
        distinct_paths(listing_after(entries, updates)),
        last_for(updates, path) is None ==> shown(listing_after(entries, updates), path) == shown(
            entries,
            path,
        ),
        last_for(updates, path) is Some ==> {
            &&& last_for(updates, path)->0.path == path
            &&& shown(listing_after(entries, updates), path) is Some
            &&& shown(listing_after(entries, updates), path)->0.path == path
            &&& shown(listing_after(entries, updates), path)->0.scanning == last_for(
                updates,
                path,
            )->0.scanning
            &&& !last_for(updates, path)->0.scanning ==> shown(
                listing_after(entries, updates),
                path,
            )->0.size == last_for(updates, path)->0.size
        },
    decreases updates.len(),
{
    if updates.len() > 0 {
        let head = updates.drop_last();
        let before = listing_after(entries, head);
        lemma_last_update_decides(entries, head, path);
        lemma_update_touches_one_path(before, updates.last(), path);
        let found = |e: FolderEntryView| e.path == path;
        lemma_first_match(before, found);
    }
}

/// Where a path was not listed before and all updates for it carry the
/// same name and kind, the listing shows for it exactly the last update,
/// once that is final.
pub proof fn lemma_final_update_is_shown(
    entries: Seq<FolderEntryView>,
    updates: Seq<FolderEntryView>,
    last: FolderEntryView,
)
    requires
        distinct_paths(entries),
        shown(entries, last.path) is None,
        last_for(updates, last.path) == Some(last),
        !last.scanning,
        forall|i: int|
            0 <= i < updates.len() && (#[trigger] updates[i]).path == last.path ==> updates[i].name
                == last.name && updates[i].is_dir == last.is_dir,
    ensures
        shown(listing_after(entries, updates), last.path) == Some(last),
    decreases updates.len(),
{
    lemma_last_update_decides(entries, updates, last.path);
    lemma_name_and_kind_stay(entries, updates, last.path, last.name, last.is_dir);
}

/// An entry keeps the name and kind under which its path was first shown.
proof fn lemma_name_and_kind_stay(
    entries: Seq<FolderEntryView>,
    updates: Seq<FolderEntryView>,
    path: Seq<char>,
    name: Seq<char>,
    is_dir: bool,
)
    requires
        distinct_paths(entries),
        shown(entries, path) is None,
        forall|i: int|
            0 <= i < updates.len() && (#[trigger] updates[i]).path == path ==> updates[i].name
                == name && updates[i].is_dir == is_dir,
    ensures
        shown(listing_after(entries, updates), path) is Some ==> shown(
            listing_after(entries, updates),
            path,
        )->0.name == name && shown(listing_after(entries, updates), path)->0.is_dir == is_dir,
    decreases updates.len(),
{
    if updates.len() > 0 {
        let head = updates.drop_last();
        let before = listing_after(entries, head);
        assert forall|i: int| 0 <= i < head.len() && (#[trigger] head[i]).path == path implies head[i].name
            == name && head[i].is_dir == is_dir by {
            assert(head[i] == updates[i]);
        }
        lemma_name_and_kind_stay(entries, head, path, name, is_dir);
        lemma_last_update_decides(entries, head, path);
        lemma_update_touches_one_path(before, updates.last(), path);
        assert(updates[updates.len() - 1] == updates.last());
    }
}

/// Taking in the events of the browsed directory's scan gives the listing
/// after its updates, with the total of what is shown.
pub proof fn lemma_polled_listing(s: SpaceLensView, updates: Seq<FolderEntryView>)
    ensures
        polled(s, as_events(s.current_path, updates)) == (SpaceLensView {
            entries: listing_after(s.entries, updates),
            total_size: if updates.len() == 0 {
                s.total_size
            } else {
                clamp_u64(entries_size(listing_after(s.entries, updates)))
            },
            ..s
        }),
    decreases updates.len(),
{
    let events = as_events(s.current_path, updates);
    if updates.len() > 0 {
        lemma_polled_listing(s, updates.drop_last());
        assert(events.drop_last() =~= as_events(s.current_path, updates.drop_last()));
        assert(events.last() == (ScanEventView::Update {
            scan_path: s.current_path,
            entry: updates.last(),
        }));
    }
}

/// A directory with three children, a file and two directories, is scanned
/// from nothing. In whatever order the updates of the three arrive, as long
/// as the last update of each child is its final one, the listing holds
/// exactly the three final entries, none twice and none still scanning, and
/// the total is the sum of their sizes.
pub proof fn lemma_three_children_in_any_order(
    updates: Seq<FolderEntryView>,
    a: FolderEntryView,
    b: FolderEntryView,
    c: FolderEntryView,
)
    requires
        a.path != b.path && a.path != c.path && b.path != c.path,
        !a.scanning && !b.scanning && !c.scanning,
        last_for(updates, a.path) == Some(a),
        last_for(updates, b.path) == Some(b),
        last_for(updates, c.path) == Some(c),
        forall|i: int|
            0 <= i < updates.len() ==> {
                ||| (#[trigger] updates[i]).path == a.path && updates[i].name == a.name
                    && updates[i].is_dir == a.is_dir
                ||| updates[i].path == b.path && updates[i].name == b.name && updates[i].is_dir
                    == b.is_dir
                ||| updates[i].path == c.path && updates[i].name == c.name && updates[i].is_dir
                    == c.is_dir
            },
    ensures
        listing_after(Seq::empty(), updates).len() == 3,
        listing_after(Seq::empty(), updates).to_set() == set![a, b, c],
        entries_size(listing_after(Seq::empty(), updates)) == a.size + b.size + c.size,
{
    let none = Seq::<FolderEntryView>::empty();
    let after = listing_after(none, updates);
    lemma_first_match(none, |e: FolderEntryView| e.path == a.path);
    lemma_first_match(none, |e: FolderEntryView| e.path == b.path);
    lemma_first_match(none, |e: FolderEntryView| e.path == c.path);
    lemma_final_update_is_shown(none, updates, a);
    lemma_final_update_is_shown(none, updates, b);
    lemma_final_update_is_shown(none, updates, c);
    lemma_last_update_decides(none, updates, a.path);
    let ia = position_by_path(after, a.path);
    let ib = position_by_path(after, b.path);
    let ic = position_by_path(after, c.path);
    lemma_first_match(after, |e: FolderEntryView| e.path == a.path);
    lemma_first_match(after, |e: FolderEntryView| e.path == b.path);
    lemma_first_match(after, |e: FolderEntryView| e.path == c.path);
    assert(after[ia] == a && after[ib] == b && after[ic] == c);
    assert forall|k: int| 0 <= k < after.len() implies (#[trigger] after[k]) == a || after[k] == b
        || after[k] == c by {
        let q = after[k].path;
        lemma_shown_is(after, k);
        lemma_last_update_decides(none, updates, q);
        lemma_first_match(none, |e: FolderEntryView| e.path == q);
        lemma_last_is_one_of(updates, q);
        if q == a.path {
            assert(shown(after, q) == Some(a));
        } else if q == b.path {
            assert(shown(after, q) == Some(b));
        } else {
            assert(q == c.path);
            assert(shown(after, q) == Some(c));
        }
    }
    assert(after.len() >= 3) by {
        assert(ia != ib && ia != ic && ib != ic);
    }
    assert(after.len() == 3) by {
        if after.len() > 3 {
            assert(after[0].path != after[1].path && after[0].path != after[2].path
                && after[0].path != after[3].path && after[1].path != after[2].path
                && after[1].path != after[3].path && after[2].path != after[3].path);
            assert(after[0] == a || after[0] == b || after[0] == c);
            assert(after[1] == a || after[1] == b || after[1] == c);
            assert(after[2] == a || after[2] == b || after[2] == c);
            assert(after[3] == a || after[3] == b || after[3] == c);
        }
    }
    assert(after.to_set() =~= set![a, b, c]) by {
        assert forall|x: FolderEntryView| after.to_set().contains(x) implies set![a, b, c].contains(
            x,
        ) by {
            let k = choose|k: int| 0 <= k < after.len() && after[k] == x;
            assert(after[k] == a || after[k] == b || after[k] == c);
        }
        assert(after.contains(after[ia]) && after.contains(after[ib]) && after.contains(after[ic]));
    }
    assert(entries_size(after) == a.size + b.size + c.size) by {
        let two = after.drop_last();
        let one = two.drop_last();
        assert(one.drop_last() =~= none);
        assert(entries_size(one.drop_last()) == 0);
        assert(one.last() == after[0]);
        assert(two.last() == after[1]);
        assert(after.last() == after[2]);
        assert(entries_size(one) == after[0].size);
        assert(entries_size(two) == after[0].size + after[1].size);
        assert(entries_size(after) == after[0].size + after[1].size + after[2].size);
        assert(after[0].path != after[1].path && after[0].path != after[2].path
            && after[1].path != after[2].path);
        assert(after[0] == a || after[0] == b || after[0] == c);
        assert(after[1] == a || after[1] == b || after[1] == c);
        assert(after[2] == a || after[2] == b || after[2] == c);
    }
}

/// The last update for a path is one of the updates, and has that path.
proof fn lemma_last_is_one_of(updates: Seq<FolderEntryView>, path: Seq<char>)
    ensures
        last_for(updates, path) is Some ==> last_for(updates, path)->0.path == path
            && updates.contains(last_for(updates, path)->0),
    decreases updates.len(),
{
    if updates.len() > 0 {
        if updates.last().path == path {
            assert(updates[updates.len() - 1] == updates.last());
        } else {
            lemma_last_is_one_of(updates.drop_last(), path);
            if last_for(updates, path) is Some {
                let x = last_for(updates, path)->0;
                let k = choose|k: int| 0 <= k < updates.drop_last().len() && updates.drop_last()[k] == x;
                assert(updates[k] == x);
            }
        }
    }
}

/// The scan of such a directory as the consumer sees it: after the updates
/// of the three children, in any order, and the closing of the scan's
/// channel, nothing is loading, the listing holds the three final entries
/// and the total is the sum of their sizes; the snapshot kept is this
/// listing, complete.
pub proof fn lemma_scan_of_three_children(
    s: SpaceLensView,
    updates: Seq<FolderEntryView>,
    a: FolderEntryView,
    b: FolderEntryView,
    c: FolderEntryView,
)
    requires
        s.entries.len() == 0,
        a.path != b.path && a.path != c.path && b.path != c.path,
        !a.scanning && !b.scanning && !c.scanning,
        last_for(updates, a.path) == Some(a),
        last_for(updates, b.path) == Some(b),
        last_for(updates, c.path) == Some(c),
        forall|i: int|
            0 <= i < updates.len() ==> {
                ||| (#[trigger] updates[i]).path == a.path && updates[i].name == a.name
                    && updates[i].is_dir == a.is_dir
                ||| updates[i].path == b.path && updates[i].name == b.name && updates[i].is_dir
                    == b.is_dir
                ||| updates[i].path == c.path && updates[i].name == c.name && updates[i].is_dir
                    == c.is_dir
            },
    ensures
        ({
            let end = closed(polled(s, as_events(s.current_path, updates)), s.current_path);
            &&& !end.loading
            &&& end.entries.len() == 3
            &&& end.entries.to_set() == set![a, b, c]
            &&& end.total_size == clamp_u64((a.size + b.size + c.size) as nat)
            &&& end.cache[s.current_path] == (CachedScanView {
                entries: end.entries,
                total_size: end.total_size,
                was_loading: false,
            })
        }),
{
    assert(s.entries =~= Seq::<FolderEntryView>::empty());
    lemma_three_children_in_any_order(updates, a, b, c);
    lemma_polled_listing(s, updates);
}

} // verus!
