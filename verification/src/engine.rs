use crate::deferred::{at_depth, sort_deepest_first, sorted_by_depth_desc, DeferredDir};
use crate::queue::WorkQueue;
use crate::stats::LocalStats;
use vstd::prelude::*;

verus! {

/// What a directory entry is, as reported by a scan that does not follow
/// symlinks.
#[derive(Clone, Copy, PartialEq, Eq, Structural, Debug)]
pub enum EntryKind {
    RegularFile,
    Symlink,
    Directory,
    Unknown,
}

/// One direct entry of a scanned directory.
#[derive(Clone, Debug)]
pub struct Entry {
    pub path: String,
    pub kind: EntryKind,
}

/// A unit of pending work: one directory awaiting scan.  `depth` is the
/// number of path components below the deletion root; the root itself has
/// depth 0.  Each job is consumed exactly once by exactly one worker.
#[derive(Clone, Debug)]
pub struct Job {
    pub path: String,
    pub depth: usize,
}

/// A leaf entry is deleted inline by the worker that scanned it: a regular
/// file or a symlink.  A symlink is unlinked as a single entry and never
/// traversed into, whatever it points at.
pub open spec fn is_leaf_kind(k: EntryKind) -> bool {
    k == EntryKind::RegularFile || k == EntryKind::Symlink
}

/// The paths of the leaf entries of a listing, in scan order.
pub open spec fn leaf_paths(entries: Seq<Entry>) -> Seq<Seq<char>>
    decreases entries.len(),
{
    if entries.len() == 0 {
        Seq::<Seq<char>>::empty()
    } else {
        let rest = leaf_paths(entries.drop_last());
        if is_leaf_kind(entries.last().kind) {
            rest.push(entries.last().path@)
        } else {
            rest
        }
    }
}

/// The scan jobs arising from the subdirectory entries of a listing: each
/// subdirectory path paired with the depth its job will carry.
pub open spec fn subdir_jobs(entries: Seq<Entry>, child_depth: int) -> Seq<(Seq<char>, int)>
    decreases entries.len(),
{
    if entries.len() == 0 {
        Seq::<(Seq<char>, int)>::empty()
    } else {
        let rest = subdir_jobs(entries.drop_last(), child_depth);
        if entries.last().kind == EntryKind::Directory {
            rest.push((entries.last().path@, child_depth))
        } else {
            rest
        }
    }
}

/// How many entries of a listing have an unknown kind.  Each one is
/// recorded as a failure and otherwise left alone.
pub open spec fn unknown_count(entries: Seq<Entry>) -> int
    decreases entries.len(),
{
    if entries.len() == 0 {
        0
    } else {
        unknown_count(entries.drop_last()) + if entries.last().kind == EntryKind::Unknown {
            1int
        } else {
            0int
        }
    }
}

/// The view of a job: its path's characters and its depth.
pub open spec fn job_view(j: Job) -> (Seq<char>, int) {
    (j.path@, j.depth as int)
}

/// The view of a sequence of jobs.
pub open spec fn jobs_view(s: Seq<Job>) -> Seq<(Seq<char>, int)> {
    s.map_values(|j: Job| job_view(j))
}

/// The worker's verdict on one scanned directory: which leaf entries to
/// unlink now, and whether the directory itself is removed as soon as they
/// are gone or waits for the finalization pass.
pub struct ScanWork {
    unlink: Vec<String>,
    dir_path: String,
    dir_depth: usize,
    defer_dir: bool,
}

impl ScanWork {
    /// The paths to unlink, in scan order.
    pub closed spec fn unlink_paths(self) -> Seq<Seq<char>> {
        self.unlink@.map_values(|p: String| p@)
    }

    pub closed spec fn unlink_len(self) -> int {
        self.unlink@.len() as int
    }

    /// Whether the scanned directory's removal is deferred to the
    /// finalization pass (it is the root, or it had subdirectories).
    pub closed spec fn is_deferred(self) -> bool {
        self.defer_dir
    }

    pub closed spec fn dir_path_view(self) -> Seq<char> {
        self.dir_path@
    }

    pub closed spec fn dir_depth_view(self) -> int {
        self.dir_depth as int
    }

    /// The paths whose entries are to be unlinked immediately.
    pub fn unlink_list(&self) -> (r: &Vec<String>)
        ensures
            r@.map_values(|p: String| p@) == self.unlink_paths(),
            r@.len() == self.unlink_len(),
    {
        &self.unlink
    }

    /// Whether the caller should leave the directory to the finalization
    /// pass (`true`) or remove it now that its entries are gone (`false`).
    pub fn defers_dir(&self) -> (r: bool)
        ensures
            r == self.is_deferred(),
    {
        self.defer_dir
    }

    /// The scanned directory's own path.
    pub fn dir_path(&self) -> (r: &String)
        ensures
            r@ == self.dir_path_view(),
    {
        &self.dir_path
    }
}

/// The stage one deletion operation is in: scanning and deleting, or
/// removing the deferred directories.
#[derive(Clone, Copy, PartialEq, Eq, Structural, Debug)]
pub enum EnginePhase {
    Running,
    Finalizing,
}

/// What `next_job` tells a worker: run a job, wait because work is still
/// pending but momentarily all in other workers' hands, or exit because
/// the traversal is complete.
pub enum NextJob {
    Run(Job),
    Wait,
    Drained,
}

/// The shared state of one deletion operation: the work queue, the
/// pending-job counter, the aggregated statistics and the deferred
/// directories.  It is constructed fresh per operation and discarded when
/// the operation's driver returns.
///
/// The engine holds the decisions of the original concurrent driver and
/// workers; the caller performs the filesystem work between calls and
/// reports each outcome.  The pending-job counter equals the number of
/// jobs created but not yet retired: a job is retired only after all its
/// child jobs have been counted, so the counter reaching zero is the
/// unique, race-free signal that traversal is complete.
pub struct Engine {
    queue: WorkQueue<Job>,
    pending: usize,
    active: usize,
    outstanding_leaves: usize,
    stats: LocalStats,
    deferred: Vec<DeferredDir>,
    to_finalize: usize,
    phase: EnginePhase,
    dirs_found: Ghost<int>,
    files_found: Ghost<int>,
    dir_failures: Ghost<int>,
    file_failures: Ghost<int>,
    unknown_failures: Ghost<int>,
}

impl Engine {
    pub closed spec fn phase(self) -> EnginePhase {
        self.phase
    }

    /// The pending-job counter: jobs created and not yet retired.
    pub closed spec fn pending_count(self) -> int {
        self.pending as int
    }

    /// Jobs handed to workers by `next_job` and not yet retired.
    pub closed spec fn active_count(self) -> int {
        self.active as int
    }

    /// Leaf entries handed out in verdicts whose outcomes are still owed.
    pub closed spec fn outstanding(self) -> int {
        self.outstanding_leaves as int
    }

    /// The queued jobs, oldest first, as (path, depth) views.
    pub closed spec fn queued(self) -> Seq<(Seq<char>, int)> {
        jobs_view(self.queue.pending())
    }

    pub closed spec fn queue_done(self) -> bool {
        self.queue.is_done()
    }

    /// The statistics aggregated so far.
    pub closed spec fn results(self) -> LocalStats {
        self.stats
    }

    /// The deferred directories recorded so far, in recording order.
    pub closed spec fn deferred_list(self) -> Seq<DeferredDir> {
        self.deferred@
    }

    /// Deferred directories handed out by `take_deferred` whose removal
    /// outcomes are still owed.
    pub closed spec fn remaining_deferred(self) -> int {
        self.to_finalize as int
    }

    /// How many directories the traversal has discovered: the root plus
    /// every subdirectory that became a job.
    pub closed spec fn dirs_found(self) -> int {
        self.dirs_found@
    }

    /// How many leaf entries the traversal has discovered.
    pub closed spec fn files_found(self) -> int {
        self.files_found@
    }

    /// The share of `results().failures` that concerns directories: scans
    /// that failed and directory removals that failed.
    pub closed spec fn dir_failure_count(self) -> int {
        self.dir_failures@
    }

    /// The share of `results().failures` that concerns leaf unlinks.
    pub closed spec fn file_failure_count(self) -> int {
        self.file_failures@
    }

    /// The share of `results().failures` that concerns entries of unknown
    /// kind.
    pub closed spec fn unknown_failure_count(self) -> int {
        self.unknown_failures@
    }

    /// The run is complete: traversal has drained and every deferred
    /// directory's outcome has been recorded.
    pub open spec fn finished(self) -> bool {
        self.phase() == EnginePhase::Finalizing && self.remaining_deferred() == 0
    }

    /// The engine's invariant, established by `new` and preserved by every
    /// operation.  It ties the pending-job counter to the queue and the
    /// active jobs, and accounts for every discovered directory and leaf
    /// entry exactly once.
    pub closed spec fn inv(self) -> bool {
        &&& self.stats.failures as int == self.dir_failures@ + self.file_failures@
            + self.unknown_failures@
        &&& self.dir_failures@ >= 0
        &&& self.file_failures@ >= 0
        &&& self.unknown_failures@ >= 0
        &&& self.dirs_found@ >= 1
        &&& self.files_found@ == self.stats.files_deleted as int + self.file_failures@
            + self.outstanding_leaves as int
        &&& (self.phase == EnginePhase::Running ==> {
            &&& self.pending as int == self.queue.pending().len() + self.active as int
            &&& self.to_finalize == 0
            &&& self.dirs_found@ == self.stats.dirs_deleted as int + self.dir_failures@
                + self.pending as int + self.deferred@.len()
        })
        &&& (self.phase == EnginePhase::Finalizing ==> {
            &&& self.pending == 0
            &&& self.active == 0
            &&& self.outstanding_leaves == 0
            &&& self.queue.pending().len() == 0
            &&& self.deferred@.len() == 0
            &&& self.dirs_found@ == self.stats.dirs_deleted as int + self.dir_failures@
                + self.to_finalize as int
        })
    }

    /// Start one deletion operation: seed the queue with the root job at
    /// depth 0 and set the pending-job counter to 1.
    pub fn new(root_path: String) -> (eng: Engine)
        ensures
            eng.inv(),
            eng.phase() == EnginePhase::Running,
            eng.pending_count() == 1,
            eng.active_count() == 0,
            eng.outstanding() == 0,
            eng.results() == (LocalStats { files_deleted: 0, dirs_deleted: 0, failures: 0 }),
            eng.queued() == seq![(root_path@, 0int)],
            eng.deferred_list().len() == 0,
            eng.dirs_found() == 1,
            eng.files_found() == 0,
            !eng.queue_done(),
    {
        let mut queue = WorkQueue::<Job>::new();
        let root = Job { path: root_path, depth: 0 };
        queue.push(root);
        let eng = Engine {
            queue,
            pending: 1,
            active: 0,
            outstanding_leaves: 0,
            stats: LocalStats::new(),
            deferred: Vec::new(),
            to_finalize: 0,
            phase: EnginePhase::Running,
            dirs_found: Ghost(1),
            files_found: Ghost(0),
            dir_failures: Ghost(0),
            file_failures: Ghost(0),
            unknown_failures: Ghost(0),
        };
        proof {
            assert(eng.queued() =~= seq![(eng.queue.pending()[0].path@, 0int)]);
        }
        eng
    }

    /// One worker asks for work.  With the pending-job counter at zero the
    /// traversal is complete: the queue's done signal is given and the
    /// worker is told to exit.  With pending work but an empty queue — all
    /// remaining jobs are in other workers' hands and may yet spawn
    /// children — the worker must wait and ask again; in the running
    /// engine this is where a worker blocks on the queue.  Otherwise the
    /// most recently queued job is handed out.
    pub fn next_job(&mut self) -> (r: NextJob)
        requires
            old(self).inv(),
            old(self).phase() == EnginePhase::Running,
        ensures
            final(self).inv(),
            final(self).phase() == EnginePhase::Running,
            final(self).results() == old(self).results(),
            final(self).deferred_list() == old(self).deferred_list(),
            final(self).outstanding() == old(self).outstanding(),
            final(self).pending_count() == old(self).pending_count(),
            final(self).dirs_found() == old(self).dirs_found(),
            final(self).files_found() == old(self).files_found(),
            final(self).dir_failure_count() == old(self).dir_failure_count(),
            final(self).file_failure_count() == old(self).file_failure_count(),
            final(self).unknown_failure_count() == old(self).unknown_failure_count(),
            match r {
                NextJob::Run(job) => {
                    &&& old(self).queued().len() > 0
                    &&& job_view(job) == old(self).queued().last()
                    &&& final(self).queued() == old(self).queued().drop_last()
                    &&& final(self).active_count() == old(self).active_count() + 1
                    &&& final(self).queue_done() == old(self).queue_done()
                },
                NextJob::Wait => {
                    &&& old(self).pending_count() > 0
                    &&& old(self).queued().len() == 0
                    &&& *final(self) == *old(self)
                },
                NextJob::Drained => {
                    &&& old(self).pending_count() == 0
                    &&& final(self).queued() == old(self).queued()
                    &&& final(self).queue_done()
                    &&& final(self).active_count() == old(self).active_count()
                },
            },
    {
        if self.pending == 0 {
            self.queue.signal_done();
            NextJob::Drained
        } else if self.queue.len() == 0 {
            NextJob::Wait
        } else {
            let ghost before = self.queue.pending();
            let job = self.queue.pop().unwrap();
            self.active = self.active + 1;
            proof {
                assert(jobs_view(before.drop_last()) =~= jobs_view(before).drop_last());
            }
            NextJob::Run(job)
        }
    }

    /// The scan of one directory failed: it cannot be listed.  The failure
    /// is recorded and the job is retired; no children were ever counted
    /// for it, so the pending-job counter drops by exactly one.
    pub fn scan_failed(&mut self)
        requires
            old(self).inv(),
            old(self).phase() == EnginePhase::Running,
            old(self).active_count() > 0,
            old(self).results().failures < usize::MAX,
        ensures
            final(self).inv(),
            final(self).phase() == EnginePhase::Running,
            final(self).results().failures == old(self).results().failures + 1,
            final(self).results().files_deleted == old(self).results().files_deleted,
            final(self).results().dirs_deleted == old(self).results().dirs_deleted,
            final(self).pending_count() == old(self).pending_count() - 1,
            final(self).active_count() == old(self).active_count() - 1,
            final(self).queued() == old(self).queued(),
            final(self).queue_done() == old(self).queue_done(),
            final(self).deferred_list() == old(self).deferred_list(),
            final(self).outstanding() == old(self).outstanding(),
            final(self).dirs_found() == old(self).dirs_found(),
            final(self).files_found() == old(self).files_found(),
            final(self).dir_failure_count() == old(self).dir_failure_count() + 1,
            final(self).file_failure_count() == old(self).file_failure_count(),
            final(self).unknown_failure_count() == old(self).unknown_failure_count(),
    {
        self.stats.failures = self.stats.failures + 1;
        self.pending = self.pending - 1;
        self.active = self.active - 1;
        self.dir_failures = Ghost(self.dir_failures@ + 1);
    }

    /// Process the listing of one scanned directory.  Leaf entries are
    /// handed back for immediate unlinking; each subdirectory becomes a
    /// new job, counted into the pending-job counter *before* the batch is
    /// made visible, so the counter can never transiently read zero while
    /// the batch is in flight; entries of unknown kind are recorded as
    /// failures.  The directory itself is deferred when it is the root or
    /// had subdirectories, and is otherwise handed back for immediate
    /// removal.  The job stays counted until `finish_job`.
    pub fn scan_listed(&mut self, job: &Job, entries: &Vec<Entry>) -> (work: ScanWork)
        requires
            old(self).inv(),
            old(self).phase() == EnginePhase::Running,
            old(self).active_count() > 0,
            job.depth < usize::MAX,
            old(self).pending_count() + entries@.len() <= usize::MAX,
            old(self).results().failures + entries@.len() <= usize::MAX,
            old(self).outstanding() + entries@.len() <= usize::MAX,
        ensures
            final(self).inv(),
            final(self).phase() == EnginePhase::Running,
            final(self).queued() == old(self).queued() + subdir_jobs(
                entries@,
                job.depth + 1,
            ),
            final(self).pending_count() == old(self).pending_count() + subdir_jobs(
                entries@,
                job.depth + 1,
            ).len(),
            final(self).active_count() == old(self).active_count(),
            final(self).queue_done() == old(self).queue_done(),
            final(self).results().failures == old(self).results().failures + unknown_count(
                entries@,
            ),
            final(self).results().files_deleted == old(self).results().files_deleted,
            final(self).results().dirs_deleted == old(self).results().dirs_deleted,
            final(self).deferred_list() == old(self).deferred_list(),
            final(self).outstanding() == old(self).outstanding() + leaf_paths(entries@).len(),
            final(self).dirs_found() == old(self).dirs_found() + subdir_jobs(
                entries@,
                job.depth + 1,
            ).len(),
            final(self).files_found() == old(self).files_found() + leaf_paths(entries@).len(),
            final(self).dir_failure_count() == old(self).dir_failure_count(),
            final(self).file_failure_count() == old(self).file_failure_count(),
            final(self).unknown_failure_count() == old(self).unknown_failure_count()
                + unknown_count(entries@),
            work.unlink_paths() == leaf_paths(entries@),
            work.unlink_len() == leaf_paths(entries@).len(),
            work.dir_path_view() == job.path@,
            work.dir_depth_view() == job.depth,
            work.is_deferred() == (job.depth == 0 || subdir_jobs(entries@, job.depth + 1).len()
                > 0),
    {
        let child_depth = job.depth + 1;
        let mut unlink: Vec<String> = Vec::new();
        let mut batch: Vec<Job> = Vec::new();
        let mut unknown: usize = 0;
        let mut i: usize = 0;
        proof {
            assert(entries@.take(0) =~= Seq::<Entry>::empty());
            assert(jobs_view(batch@) =~= subdir_jobs(entries@.take(0), child_depth as int));
            assert(unlink@.map_values(|p: String| p@) =~= leaf_paths(entries@.take(0)));
        }
        while i < entries.len()
            invariant
                i <= entries@.len(),
                child_depth == job.depth + 1,
                unlink@.map_values(|p: String| p@) == leaf_paths(entries@.take(i as int)),
                jobs_view(batch@) == subdir_jobs(entries@.take(i as int), child_depth as int),
                unknown as int == unknown_count(entries@.take(i as int)),
                unknown <= i,
                batch@.len() <= i,
                unlink@.len() <= i,
            decreases entries@.len() - i,
        {
            let ghost prefix = entries@.take(i as int);
            let ghost ext = entries@.take(i as int + 1);
            let e = &entries[i];
            proof {
                assert(ext.drop_last() =~= prefix);
                assert(ext.last() == entries@[i as int]);
            }
            match e.kind {
                EntryKind::RegularFile | EntryKind::Symlink => {
                    let ghost before = unlink@;
                    unlink.push(e.path.clone());
                    proof {
                        assert(unlink@.map_values(|p: String| p@) =~= before.map_values(
                            |p: String| p@,
                        ).push(entries@[i as int].path@));
                    }
                },
                EntryKind::Directory => {
                    let ghost before = batch@;
                    batch.push(Job { path: e.path.clone(), depth: child_depth });
                    proof {
                        assert(jobs_view(batch@) =~= jobs_view(before).push(
                            (entries@[i as int].path@, child_depth as int),
                        ));
                    }
                },
                EntryKind::Unknown => {
                    unknown = unknown + 1;
                },
            }
            i = i + 1;
        }
        proof {
            assert(entries@.take(entries@.len() as int) =~= entries@);
        }
        let k = batch.len();
        // The protocol of the termination counter: raise it by the whole
        // batch before any of the new jobs becomes visible.
        self.pending = self.pending + k;
        self.dirs_found = Ghost(self.dirs_found@ + k as int);
        let ghost queued_before = self.queue.pending();
        self.queue.push_many(batch);
        proof {
            assert(jobs_view(self.queue.pending()) =~= jobs_view(queued_before) + subdir_jobs(
                entries@,
                child_depth as int,
            ));
        }
        self.stats.failures = self.stats.failures + unknown;
        self.unknown_failures = Ghost(self.unknown_failures@ + unknown as int);
        self.outstanding_leaves = self.outstanding_leaves + unlink.len();
        self.files_found = Ghost(self.files_found@ + unlink@.len() as int);
        let defer_dir = job.depth == 0 || k > 0;
        ScanWork { unlink, dir_path: job.path.clone(), dir_depth: job.depth, defer_dir }
    }

    /// Retire one scanned job once the outcome of every leaf unlink it
    /// handed out is known — and, for a directory removable immediately,
    /// the outcome of the directory's own removal.  Only now does the
    /// pending-job counter drop by one, strictly after the job's children
    /// were counted: per job with k subdirectories the counter moves +k
    /// then -1, so it reaches zero exactly when traversal is complete.  A
    /// deferred directory is recorded for the finalization pass here.
    pub fn finish_job(
        &mut self,
        work: ScanWork,
        files_ok: usize,
        files_failed: usize,
        dir_removed: Option<bool>,
    )
        requires
            old(self).inv(),
            old(self).phase() == EnginePhase::Running,
            old(self).active_count() > 0,
            files_ok + files_failed == work.unlink_len(),
            work.unlink_len() <= old(self).outstanding(),
            dir_removed is Some <==> !work.is_deferred(),
            old(self).results().files_deleted + files_ok <= usize::MAX,
            old(self).results().failures + files_failed < usize::MAX,
            old(self).results().dirs_deleted < usize::MAX,
        ensures
            final(self).inv(),
            final(self).phase() == EnginePhase::Running,
            final(self).pending_count() == old(self).pending_count() - 1,
            final(self).active_count() == old(self).active_count() - 1,
            final(self).queued() == old(self).queued(),
            final(self).queue_done() == old(self).queue_done(),
            final(self).outstanding() == old(self).outstanding() - work.unlink_len(),
            final(self).results().files_deleted == old(self).results().files_deleted + files_ok,
            final(self).dirs_found() == old(self).dirs_found(),
            final(self).files_found() == old(self).files_found(),
            final(self).file_failure_count() == old(self).file_failure_count() + files_failed,
            final(self).unknown_failure_count() == old(self).unknown_failure_count(),
            match dir_removed {
                None => {
                    &&& final(self).deferred_list().len() == old(self).deferred_list().len() + 1
                    &&& final(self).deferred_list().drop_last() == old(self).deferred_list()
                    &&& final(self).deferred_list().last().path@ == work.dir_path_view()
                    &&& final(self).deferred_list().last().depth == work.dir_depth_view()
                    &&& final(self).results().dirs_deleted == old(self).results().dirs_deleted
                    &&& final(self).results().failures == old(self).results().failures
                        + files_failed
                    &&& final(self).dir_failure_count() == old(self).dir_failure_count()
                },
                Some(true) => {
                    &&& final(self).deferred_list() == old(self).deferred_list()
                    &&& final(self).results().dirs_deleted == old(self).results().dirs_deleted
                        + 1
                    &&& final(self).results().failures == old(self).results().failures
                        + files_failed
                    &&& final(self).dir_failure_count() == old(self).dir_failure_count()
                },
                Some(false) => {
                    &&& final(self).deferred_list() == old(self).deferred_list()
                    &&& final(self).results().dirs_deleted == old(self).results().dirs_deleted
                    &&& final(self).results().failures == old(self).results().failures
                        + files_failed + 1
                    &&& final(self).dir_failure_count() == old(self).dir_failure_count() + 1
                },
            },
    {
        self.stats.files_deleted = self.stats.files_deleted + files_ok;
        self.stats.failures = self.stats.failures + files_failed;
        self.file_failures = Ghost(self.file_failures@ + files_failed as int);
        self.outstanding_leaves = self.outstanding_leaves - files_ok - files_failed;
        match dir_removed {
            None => {
                let ghost before = self.deferred@;
                self.deferred.push(
                    DeferredDir { path: work.dir_path, depth: work.dir_depth },
                );
                proof {
                    assert(self.deferred@.drop_last() =~= before);
                }
            },
            Some(true) => {
                self.stats.dirs_deleted = self.stats.dirs_deleted + 1;
            },
            Some(false) => {
                self.stats.failures = self.stats.failures + 1;
                self.dir_failures = Ghost(self.dir_failures@ + 1);
            },
        }
        self.pending = self.pending - 1;
        self.active = self.active - 1;
    }

    /// Enter the finalization pass.  This may happen only once the
    /// pending-job counter has reached zero — the unique signal that
    /// traversal is complete — and every verdict has been retired.
    /// Returns the merged deferred list ordered deepest first; the caller
    /// removes the directories in exactly that order and reports each
    /// outcome through `finish_deferred`.
    pub fn take_deferred(&mut self) -> (order: Vec<DeferredDir>)
        requires
            old(self).inv(),
            old(self).phase() == EnginePhase::Running,
            old(self).pending_count() == 0,
            old(self).outstanding() == 0,
        ensures
            final(self).inv(),
            final(self).phase() == EnginePhase::Finalizing,
            sorted_by_depth_desc(order@),
            order@.to_multiset() == old(self).deferred_list().to_multiset(),
            order@.len() == old(self).deferred_list().len(),
            forall|d: int| #[trigger] at_depth(order@, d) == at_depth(
                old(self).deferred_list(),
                d,
            ),
            final(self).remaining_deferred() == order@.len(),
            final(self).results() == old(self).results(),
            final(self).dirs_found() == old(self).dirs_found(),
            final(self).files_found() == old(self).files_found(),
            final(self).dir_failure_count() == old(self).dir_failure_count(),
            final(self).file_failure_count() == old(self).file_failure_count(),
            final(self).unknown_failure_count() == old(self).unknown_failure_count(),
    {
        let mut list: Vec<DeferredDir> = Vec::new();
        core::mem::swap(&mut list, &mut self.deferred);
        let order = sort_deepest_first(list);
        self.to_finalize = order.len();
        self.phase = EnginePhase::Finalizing;
        order
    }

    /// Record the outcome of removing one deferred directory.  At this
    /// point every file and every non-deferred subdirectory under it is
    /// already gone, and so is every deferred directory that lay deeper.
    /// A failure here is recorded and does not stop the remaining
    /// removals.
    pub fn finish_deferred(&mut self, removed: bool)
        requires
            old(self).inv(),
            old(self).phase() == EnginePhase::Finalizing,
            old(self).remaining_deferred() > 0,
            removed ==> old(self).results().dirs_deleted < usize::MAX,
            !removed ==> old(self).results().failures < usize::MAX,
        ensures
            final(self).inv(),
            final(self).phase() == EnginePhase::Finalizing,
            final(self).remaining_deferred() == old(self).remaining_deferred() - 1,
            final(self).results().files_deleted == old(self).results().files_deleted,
            final(self).results().dirs_deleted == old(self).results().dirs_deleted + (
            if removed {
                1int
            } else {
                0int
            }),
            final(self).results().failures == old(self).results().failures + (
            if removed {
                0int
            } else {
                1int
            }),
            final(self).dirs_found() == old(self).dirs_found(),
            final(self).files_found() == old(self).files_found(),
            final(self).dir_failure_count() == old(self).dir_failure_count() + (
            if removed {
                0int
            } else {
                1int
            }),
            final(self).file_failure_count() == old(self).file_failure_count(),
            final(self).unknown_failure_count() == old(self).unknown_failure_count(),
    {
        if removed {
            self.stats.dirs_deleted = self.stats.dirs_deleted + 1;
        } else {
            self.stats.failures = self.stats.failures + 1;
            self.dir_failures = Ghost(self.dir_failures@ + 1);
        }
        self.to_finalize = self.to_finalize - 1;
    }

    pub fn pending_jobs(&self) -> (n: usize)
        ensures
            n as int == self.pending_count(),
    {
        self.pending
    }

    pub fn active_jobs(&self) -> (n: usize)
        ensures
            n as int == self.active_count(),
    {
        self.active
    }

    pub fn outstanding_leaves(&self) -> (n: usize)
        ensures
            n as int == self.outstanding(),
    {
        self.outstanding_leaves
    }

    pub fn queue_len(&self) -> (n: usize)
        ensures
            n as int == self.queued().len(),
    {
        self.queue.len()
    }

    pub fn stats(&self) -> (s: LocalStats)
        ensures
            s == self.results(),
    {
        self.stats
    }

    pub fn remaining(&self) -> (n: usize)
        ensures
            n as int == self.remaining_deferred(),
    {
        self.to_finalize
    }

    pub fn is_finished(&self) -> (b: bool)
        ensures
            b == self.finished(),
    {
        match self.phase {
            EnginePhase::Finalizing => self.to_finalize == 0,
            EnginePhase::Running => false,
        }
    }
}

/// Conservation of work.  When a run has finished — the pending-job
/// counter reached zero and every deferred directory's outcome was
/// recorded — every directory the traversal discovered is accounted for
/// exactly once, as removed or as a directory-level failure (a listing
/// that failed, or a removal that failed); and every leaf entry handed out
/// for unlinking is accounted for exactly once, as deleted or as a failed
/// unlink.  The totals depend only on what was discovered and on which
/// attempts failed, not on the order in which workers took the jobs.
pub proof fn lemma_every_item_accounted(eng: Engine)
    requires
        eng.inv(),
        eng.finished(),
    ensures
        eng.dirs_found() == eng.results().dirs_deleted + eng.dir_failure_count(),
        eng.files_found() == eng.results().files_deleted + eng.file_failure_count(),
{
}

/// A clean run deletes everything it found: with no recorded failures the
/// number of directories removed equals the number discovered — the
/// deletion root among them — and every discovered leaf entry was
/// unlinked.
pub proof fn lemma_clean_run_deletes_all(eng: Engine)
    requires
        eng.inv(),
        eng.finished(),
        eng.results().failures == 0,
    ensures
        eng.results().dirs_deleted == eng.dirs_found(),
        eng.dirs_found() >= 1,
        eng.results().files_deleted == eng.files_found(),
{
}

/// The finalization pass runs strictly after traversal: once the engine
/// is finalizing, the pending-job counter is zero, the queue is empty,
/// no worker holds a job, and every leaf unlink handed out has had its
/// outcome recorded.  Every deferred directory is therefore attempted
/// only after every scan under it has completed and every entry handed
/// out for deletion has had its attempt.
pub proof fn lemma_finalize_only_after_drain(eng: Engine)
    requires
        eng.inv(),
        eng.phase() == EnginePhase::Finalizing,
    ensures
        eng.pending_count() == 0,
        eng.active_count() == 0,
        eng.queued().len() == 0,
        eng.outstanding() == 0,
{
}

/// Schedule independence of the counts.  Two finished runs that discovered
/// the same directories and leaf entries and recorded no failures report
/// identical `files_deleted` and `dirs_deleted`, whatever order their
/// workers processed the jobs in and however many workers there were.
pub proof fn lemma_counts_schedule_independent(a: Engine, b: Engine)
    requires
        a.inv(),
        b.inv(),
        a.finished(),
        b.finished(),
        a.results().failures == 0,
        b.results().failures == 0,
        a.dirs_found() == b.dirs_found(),
        a.files_found() == b.files_found(),
    ensures
        a.results().dirs_deleted == b.results().dirs_deleted,
        a.results().files_deleted == b.results().files_deleted,
{
}

} // verus!
