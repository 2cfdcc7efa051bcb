use cleanx::scanner::{calculate_dir_size, count_files, WalkedEntry};
use cleanx::tui::service::pool::WorkerPool;

fn file(len: u64) -> WalkedEntry {
    WalkedEntry { is_file: true, len: Some(len) }
}

#[test]
fn jobs_leave_in_the_order_they_came() {
    let mut pool: WorkerPool<&str> = WorkerPool::new(2);
    assert_eq!(pool.worker_count(), 2);
    assert_eq!(pool.take(), None);
    pool.submit("a");
    pool.submit("b");
    pool.submit("c");
    assert_eq!(pool.waiting_jobs(), 3);
    assert_eq!(pool.active_workers(), 0);
    assert_eq!(pool.take(), Some("a"));
    assert_eq!(pool.take(), Some("b"));
    assert_eq!(pool.active_workers(), 2);
    // every worker is busy
    assert_eq!(pool.take(), None);
    assert_eq!(pool.waiting_jobs(), 1);
    pool.submit("d");
    pool.finished();
    assert_eq!(pool.active_workers(), 1);
    assert_eq!(pool.take(), Some("c"));
    pool.finished();
    pool.finished();
    assert_eq!(pool.take(), Some("d"));
    pool.finished();
    pool.finished();
    assert_eq!(pool.active_workers(), 0);
    assert_eq!(pool.waiting_jobs(), 0);
}

#[test]
fn a_pool_without_workers_only_collects() {
    let mut pool: WorkerPool<u8> = WorkerPool::new(0);
    pool.submit(1);
    assert_eq!(pool.take(), None);
    assert_eq!(pool.waiting_jobs(), 1);
    pool.finished();
    assert_eq!(pool.active_workers(), 0);
}

#[test]
fn size_of_a_path_is_the_sum_of_its_files() {
    let entries = vec![
        WalkedEntry { is_file: false, len: Some(4096) },
        file(10),
        WalkedEntry { is_file: true, len: None },
        file(5),
        WalkedEntry { is_file: false, len: None },
    ];
    assert_eq!(calculate_dir_size(&entries), 15);
    assert_eq!(count_files(&entries), 3);
    // a path that is not there, and a plain file
    assert_eq!(calculate_dir_size(&Vec::new()), 0);
    assert_eq!(count_files(&Vec::new()), 0);
    assert_eq!(calculate_dir_size(&vec![file(77)]), 77);
    assert_eq!(calculate_dir_size(&vec![file(u64::MAX), file(1)]), u64::MAX);
}
