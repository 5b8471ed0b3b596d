use rmf::engine::{Engine, Entry, EntryKind, NextJob};
use rmf::stats::LocalStats;

fn entry(path: &str, kind: EntryKind) -> Entry {
    Entry { path: path.to_owned(), kind }
}

/// One fixture directory: its path, whether its listing fails, and its
/// direct entries.
struct FixtureDir {
    path: String,
    fail_scan: bool,
    entries: Vec<Entry>,
}

fn dir(path: &str, entries: Vec<Entry>) -> FixtureDir {
    FixtureDir { path: path.to_owned(), fail_scan: false, entries }
}

fn locked_dir(path: &str) -> FixtureDir {
    FixtureDir { path: path.to_owned(), fail_scan: true, entries: Vec::new() }
}

/// Drive a whole run sequentially over the fixture, reporting success for
/// every unlink and removal.  Returns the final statistics, the unlinked
/// paths in deletion order, and the finalization order's paths.
fn run(root: &str, dirs: Vec<FixtureDir>) -> (LocalStats, Vec<String>, Vec<String>) {
    let mut eng = Engine::new(root.to_owned());
    let mut unlinked: Vec<String> = Vec::new();
    loop {
        match eng.next_job() {
            NextJob::Run(job) => {
                let fixture = dirs
                    .iter()
                    .find(|d| d.path == job.path)
                    .expect("scanned a path the fixture does not hold");
                if fixture.fail_scan {
                    eng.scan_failed();
                    continue;
                }
                let work = eng.scan_listed(&job, &fixture.entries);
                let n = work.unlink_list().len();
                for p in work.unlink_list() {
                    unlinked.push(p.clone());
                }
                if work.defers_dir() {
                    eng.finish_job(work, n, 0, None);
                } else {
                    eng.finish_job(work, n, 0, Some(true));
                }
            }
            NextJob::Wait => panic!("a sequential run never waits"),
            NextJob::Drained => break,
        }
    }
    let order = eng.take_deferred();
    let order_paths: Vec<String> = order.iter().map(|d| d.path.clone()).collect();
    for _ in 0..order_paths.len() {
        eng.finish_deferred(true);
    }
    assert!(eng.is_finished());
    (eng.stats(), unlinked, order_paths)
}

#[test]
fn small_tree_counts_and_root_removed_last() {
    // root/{a.txt, sub/{b.txt, c.txt}}
    let dirs = vec![
        dir(
            "root",
            vec![entry("root/a.txt", EntryKind::RegularFile), entry("root/sub", EntryKind::Directory)],
        ),
        dir(
            "root/sub",
            vec![
                entry("root/sub/b.txt", EntryKind::RegularFile),
                entry("root/sub/c.txt", EntryKind::RegularFile),
            ],
        ),
    ];
    let (stats, unlinked, order) = run("root", dirs);
    assert_eq!(stats.files_deleted, 3);
    assert_eq!(stats.dirs_deleted, 2);
    assert_eq!(stats.failures, 0);
    assert_eq!(unlinked.len(), 3);
    assert!(unlinked.contains(&"root/a.txt".to_owned()));
    assert!(unlinked.contains(&"root/sub/b.txt".to_owned()));
    assert!(unlinked.contains(&"root/sub/c.txt".to_owned()));
    // Only the root was deferred: sub had no subdirectories and was
    // removed inline by its worker.
    assert_eq!(order, vec!["root".to_owned()]);
}

#[test]
fn unlistable_subdirectory_does_not_stop_siblings() {
    // root/{locked/, sib.txt}: the listing of locked/ fails.
    let dirs = vec![
        dir(
            "root",
            vec![entry("root/locked", EntryKind::Directory), entry("root/sib.txt", EntryKind::RegularFile)],
        ),
        locked_dir("root/locked"),
    ];
    let mut eng = Engine::new("root".to_owned());
    let mut files_deleted_paths: Vec<String> = Vec::new();
    loop {
        match eng.next_job() {
            NextJob::Run(job) => {
                let fixture = dirs.iter().find(|d| d.path == job.path).unwrap();
                if fixture.fail_scan {
                    eng.scan_failed();
                    continue;
                }
                let work = eng.scan_listed(&job, &fixture.entries);
                let n = work.unlink_list().len();
                for p in work.unlink_list() {
                    files_deleted_paths.push(p.clone());
                }
                if work.defers_dir() {
                    eng.finish_job(work, n, 0, None);
                } else {
                    eng.finish_job(work, n, 0, Some(true));
                }
            }
            NextJob::Wait => panic!("a sequential run never waits"),
            NextJob::Drained => break,
        }
    }
    let order = eng.take_deferred();
    // Removing the root now fails: locked/ is still inside it.
    for _ in 0..order.len() {
        eng.finish_deferred(false);
    }
    let stats = eng.stats();
    // The sibling file was still deleted.
    assert_eq!(files_deleted_paths, vec!["root/sib.txt".to_owned()]);
    assert_eq!(stats.files_deleted, 1);
    // One failure for the unlistable directory, one for the root removal;
    // every directory ever found is accounted as removed or failed.
    assert_eq!(stats.failures, 2);
    assert_eq!(stats.dirs_deleted, 0);
    // The run reports partial failure, and it ran to the end.
    assert_eq!(rmf::config::exit_code_for_stats(&stats), rmf::config::EXIT_ERROR);
}

#[test]
fn symlink_to_directory_is_unlinked_not_traversed() {
    // The fixture holds no directory under the link's path: if the engine
    // tried to scan it, the driver above would panic.
    let dirs = vec![dir("root", vec![entry("root/link", EntryKind::Symlink)])];
    let (stats, unlinked, _) = run("root", dirs);
    assert_eq!(unlinked, vec!["root/link".to_owned()]);
    assert_eq!(stats.files_deleted, 1);
    assert_eq!(stats.dirs_deleted, 1);
    assert_eq!(stats.failures, 0);
}

#[test]
fn unknown_entry_kind_is_counted_as_failure() {
    let dirs = vec![dir(
        "root",
        vec![entry("root/odd", EntryKind::Unknown), entry("root/a.txt", EntryKind::RegularFile)],
    )];
    let (stats, unlinked, _) = run("root", dirs);
    assert_eq!(unlinked, vec!["root/a.txt".to_owned()]);
    assert_eq!(stats.files_deleted, 1);
    assert_eq!(stats.dirs_deleted, 1);
    assert_eq!(stats.failures, 1);
}

#[test]
fn failed_unlinks_and_removals_are_all_counted() {
    // root/{sub/{a, b}}: one of sub's two files fails to unlink, then
    // sub's own removal fails, then the root's removal fails because sub
    // is still inside it.  Every attempt is accounted for.
    let mut eng = Engine::new("root".to_owned());
    let root_job = match eng.next_job() {
        NextJob::Run(j) => j,
        _ => panic!("the seed job must be there"),
    };
    let root_entries = vec![entry("root/sub", EntryKind::Directory)];
    let work_root = eng.scan_listed(&root_job, &root_entries);
    eng.finish_job(work_root, 0, 0, None);

    let sub_job = match eng.next_job() {
        NextJob::Run(j) => j,
        _ => panic!("sub is queued"),
    };
    let sub_entries = vec![
        entry("root/sub/a", EntryKind::RegularFile),
        entry("root/sub/b", EntryKind::RegularFile),
    ];
    let work_sub = eng.scan_listed(&sub_job, &sub_entries);
    assert!(!work_sub.defers_dir());
    eng.finish_job(work_sub, 1, 1, Some(false));

    assert!(matches!(eng.next_job(), NextJob::Drained));
    let order = eng.take_deferred();
    assert_eq!(order.len(), 1);
    eng.finish_deferred(false);
    assert!(eng.is_finished());

    let stats = eng.stats();
    assert_eq!(stats.files_deleted, 1);
    assert_eq!(stats.dirs_deleted, 0);
    // One failed unlink, one failed inline removal, one failed deferred
    // removal.
    assert_eq!(stats.failures, 3);
    assert_eq!(rmf::config::exit_code_for_stats(&stats), rmf::config::EXIT_ERROR);
}

#[test]
fn sibling_order_does_not_change_counts() {
    // The same subtree handed over with its siblings in two different
    // orders — as two schedules would discover them — yields the same
    // counts.
    let fixture_a = vec![
        dir(
            "root",
            vec![entry("root/x", EntryKind::Directory), entry("root/y", EntryKind::Directory)],
        ),
        dir("root/x", vec![entry("root/x/f1", EntryKind::RegularFile)]),
        dir("root/y", vec![entry("root/y/f2", EntryKind::RegularFile)]),
    ];
    let fixture_b = vec![
        dir(
            "root",
            vec![entry("root/y", EntryKind::Directory), entry("root/x", EntryKind::Directory)],
        ),
        dir("root/x", vec![entry("root/x/f1", EntryKind::RegularFile)]),
        dir("root/y", vec![entry("root/y/f2", EntryKind::RegularFile)]),
    ];
    let (stats_a, _, _) = run("root", fixture_a);
    let (stats_b, _, _) = run("root", fixture_b);
    assert_eq!(stats_a.files_deleted, stats_b.files_deleted);
    assert_eq!(stats_a.dirs_deleted, stats_b.dirs_deleted);
    assert_eq!(stats_a.failures, stats_b.failures);
    assert_eq!(stats_a.files_deleted, 2);
    assert_eq!(stats_a.dirs_deleted, 3);
}

#[test]
fn two_workers_can_hold_jobs_at_once() {
    // Interleave two workers by hand: both subdirectory jobs are taken
    // before either is finished, as a pool of two threads would.
    let mut eng = Engine::new("root".to_owned());
    let root_job = match eng.next_job() {
        NextJob::Run(j) => j,
        _ => panic!("the seed job must be there"),
    };
    let root_entries = vec![
        entry("root/x", EntryKind::Directory),
        entry("root/y", EntryKind::Directory),
    ];
    let work_root = eng.scan_listed(&root_job, &root_entries);
    assert!(work_root.defers_dir());
    eng.finish_job(work_root, 0, 0, None);

    let job_a = match eng.next_job() {
        NextJob::Run(j) => j,
        _ => panic!("two jobs are queued"),
    };
    let job_b = match eng.next_job() {
        NextJob::Run(j) => j,
        _ => panic!("two jobs are queued"),
    };
    assert_eq!(eng.active_jobs(), 2);
    assert_eq!(eng.pending_jobs(), 2);

    let a_entries = vec![entry(&format!("{}/f1", job_a.path), EntryKind::RegularFile)];
    let b_entries = vec![entry(&format!("{}/f2", job_b.path), EntryKind::RegularFile)];
    let work_a = eng.scan_listed(&job_a, &a_entries);
    let work_b = eng.scan_listed(&job_b, &b_entries);
    assert!(!work_a.defers_dir());
    assert!(!work_b.defers_dir());
    // The outcomes come back in the opposite order of the scans.
    eng.finish_job(work_b, 1, 0, Some(true));
    eng.finish_job(work_a, 1, 0, Some(true));

    assert!(matches!(eng.next_job(), NextJob::Drained));
    let order = eng.take_deferred();
    assert_eq!(order.len(), 1);
    assert_eq!(order[0].path, "root".to_owned());
    eng.finish_deferred(true);
    assert!(eng.is_finished());
    let stats = eng.stats();
    assert_eq!(stats.files_deleted, 2);
    assert_eq!(stats.dirs_deleted, 3);
    assert_eq!(stats.failures, 0);
}

#[test]
fn waiting_worker_sees_work_after_a_batch_push() {
    // One worker holds the root job while another asks for work: it is
    // told to wait, not to exit, because the counter is still positive.
    let mut eng = Engine::new("root".to_owned());
    let root_job = match eng.next_job() {
        NextJob::Run(j) => j,
        _ => panic!("the seed job must be there"),
    };
    assert!(matches!(eng.next_job(), NextJob::Wait));
    let entries = vec![entry("root/sub", EntryKind::Directory)];
    let work = eng.scan_listed(&root_job, &entries);
    // The batch is visible now: the second worker gets the new job.
    let sub_job = match eng.next_job() {
        NextJob::Run(j) => j,
        _ => panic!("the batch push made the job visible"),
    };
    assert_eq!(sub_job.path, "root/sub".to_owned());
    assert_eq!(sub_job.depth, 1);
    eng.finish_job(work, 0, 0, None);
    let sub_entries: Vec<Entry> = Vec::new();
    let sub_work = eng.scan_listed(&sub_job, &sub_entries);
    eng.finish_job(sub_work, 0, 0, Some(true));
    assert!(matches!(eng.next_job(), NextJob::Drained));
}

#[test]
fn deep_chain_finalizes_bottom_up() {
    // root/a/b each directory holding the next: all three are deferred,
    // and the finalization order is deepest first.
    let dirs = vec![
        dir("root", vec![entry("root/a", EntryKind::Directory)]),
        dir("root/a", vec![entry("root/a/b", EntryKind::Directory)]),
        dir("root/a/b", vec![entry("root/a/b/leaf.txt", EntryKind::RegularFile)]),
    ];
    let (stats, _, order) = run("root", dirs);
    assert_eq!(stats.files_deleted, 1);
    assert_eq!(stats.dirs_deleted, 3);
    assert_eq!(stats.failures, 0);
    // root/a/b was removed inline (no subdirectories); root/a and root
    // were deferred, and the deeper one comes first.
    assert_eq!(order, vec!["root/a".to_owned(), "root".to_owned()]);
}
