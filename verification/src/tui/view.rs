//! What the screens compute before they draw.

use crate::plugin::registry::{add_clamped, clamp_u64, sum_sizes};
use crate::plugin::ScanResult;
use crate::sorting::views;
use crate::split::{piece_views, pieces, split_n};
use crate::text::{concat4, from_chars, to_chars};
use crate::tui::service::disk::{ActiveThreads, PoolBucket};
use vstd::prelude::*;

verus! {

/// What the screen that confirms a clean-up shows.
#[derive(Debug, Clone, Copy)]
pub struct ConfirmModalData {
    pub selected_count: usize,
    pub total_size: u64,
}

impl ConfirmModalData {
    /// What the confirmation shows for the findings `items`: how many they
    /// are and the bytes they hold together.
    pub fn of(items: &Vec<ScanResult>) -> (r: Self)
        ensures
            r.selected_count == items@.len(),
            r.total_size == clamp_u64(sum_sizes(views(items@))),
    {
        let ghost all = views(items@);
        let mut total: u64 = 0;
        let mut i: usize = 0;
        while i < items.len()
            invariant
                i <= items@.len(),
                all == views(items@),
                total == clamp_u64(sum_sizes(all.take(i as int))),
            decreases items.len() - i,
        {
            assert(all.take(i + 1).drop_last() == all.take(i as int));
            assert(all.take(i + 1).last() == items@[i as int]@);
            total = add_clamped(total, items[i].size);
            i += 1;
        }
        assert(all.take(items@.len() as int) == all);
        ConfirmModalData { selected_count: items.len(), total_size: total }
    }
}

/// Number of bytes that write `s`, as the machine counts them.
pub open spec fn byte_len(s: Seq<char>) -> usize {
    vstd::utf8::encode_utf8(s).len() as usize
}

/// `path` shortened for display: a path of more than `max_len` bytes and
/// more than four components keeps its first two and its last two
/// components, with three dots between them.
pub open spec fn shortened(path: Seq<char>, max_len: usize) -> Seq<char> {
    let segments = pieces(path, '/', usize::MAX as nat);
    if byte_len(path) <= max_len || segments.len() <= 4 {
        path
    } else {
        segments[0] + seq!['/'] + segments[1] + "/.../"@ + segments[segments.len() - 2] + seq![
            '/',
        ] + segments[segments.len() - 1]
    }
}

/// `path` shortened for display.
pub fn truncate_path_middle(path: &str, max_len: usize) -> (r: String)
    ensures
        r@ == shortened(path@, max_len),
{
    if path.len() <= max_len {
        return String::from_str(path);
    }
    let segments = split_n(&to_chars(path), '/', usize::MAX);
    let ghost all = piece_views(segments@);
    assert(all.len() == segments@.len());
    if segments.len() <= 4 {
        return String::from_str(path);
    }
    let n = segments.len();
    proof {
        assert(all[0] == segments@[0]@);
        assert(all[1] == segments@[1]@);
        assert(all[n - 2] == segments@[n - 2]@);
        assert(all[n - 1] == segments@[n - 1]@);
        reveal_strlit("/");
        assert("/"@ =~= seq!['/']);
    }
    let head = concat4(
        from_chars(&segments[0]).as_str(),
        "/",
        from_chars(&segments[1]).as_str(),
        "/.../",
    );
    let r = concat4(
        head.as_str(),
        from_chars(&segments[n - 2]).as_str(),
        "/",
        from_chars(&segments[n - 1]).as_str(),
    );
    assert(r@ =~= shortened(path@, max_len));
    r
}

/// What the explorer's title says of its worker threads.
#[derive(Debug, Clone, Copy, PartialEq, Eq, Structural)]
pub struct ThreadInfo {
    /// Number of worker threads of the pool that is used.
    pub threads: usize,
    /// Number of those that are busy.
    pub active: usize,
}

/// The thread information for a request of `thread_count` threads, given
/// how many workers of each pool are busy.
pub fn thread_info(thread_count: usize, active: &ActiveThreads) -> (r: ThreadInfo)
    ensures
        r.threads == PoolBucket::serving(thread_count).worker_count(),
        r.active == match PoolBucket::serving(thread_count) {
            PoolBucket::Small => active.small,
            PoolBucket::Medium => active.medium,
            PoolBucket::Large => active.large,
        },
{
    ThreadInfo {
        threads: PoolBucket::for_size(thread_count).threads(),
        active: crate::tui::service::disk::get_active_threads(active, thread_count),
    }
}

} // verus!
