use crate::engine::EntryKind;
use crate::stats::LocalStats;
use vstd::prelude::*;

verus! {

/// Exit status of a fully successful operation.
pub const EXIT_SUCCESS: i32 = 0;

/// Exit status when some deletions failed but the operation ran on.
pub const EXIT_ERROR: i32 = 1;

/// Exit status of a structural precondition violation: a missing target,
/// a protected path, or unreadable metadata.
pub const EXIT_FATAL: i32 = 2;

/// The worker count derived from a machine's parallelism: four fifths of
/// the available CPUs, clamped to at least 1 and at most 256.
pub open spec fn spec_default_threads(cpus: int) -> int {
    let scaled = cpus * 4 / 5;
    if scaled < 1 {
        1
    } else if scaled > 256 {
        256
    } else {
        scaled
    }
}

/// A requested worker count, clamped to at least 1 and at most 256.
pub open spec fn spec_clamp_threads(t: int) -> int {
    if t < 1 {
        1
    } else if t > 256 {
        256
    } else {
        t
    }
}

/// The default worker count for a machine with `cpus` available CPUs.
pub fn default_thread_count(cpus: usize) -> (n: usize)
    ensures
        n as int == spec_default_threads(cpus as int),
        1 <= n <= 256,
{
    if cpus >= 320 {
        proof {
            assert(cpus as int * 4 / 5 >= 256) by (nonlinear_arith)
                requires
                    cpus >= 320,
            ;
        }
        256
    } else {
        let scaled = cpus * 4 / 5;
        if scaled < 1 {
            1
        } else {
            proof {
                assert(cpus as int * 4 / 5 <= 256) by (nonlinear_arith)
                    requires
                        cpus < 320,
                ;
            }
            scaled
        }
    }
}

/// Relies on num_cpus::get: the number of logical CPUs available to this
/// process.  The value depends on the machine, so nothing is promised of
/// it.
#[verifier::external_body]
fn query_cpu_count() -> usize {
    num_cpus::get()
}

/// The worker count for one deletion operation: the requested count if
/// one was given, otherwise a default derived from the machine's
/// parallelism; either way clamped to at least 1 and at most 256.
pub fn resolve_thread_count(requested: Option<usize>) -> (n: usize)
    ensures
        1 <= n <= 256,
        match requested {
            Some(t) => n as int == spec_clamp_threads(t as int),
            None => true,
        },
{
    match requested {
        Some(t) => {
            if t < 1 {
                1
            } else if t > 256 {
                256
            } else {
                t
            }
        },
        None => default_thread_count(query_cpu_count()),
    }
}

/// What the driver does with one target path.
#[derive(Clone, Copy, PartialEq, Eq, Structural, Debug)]
pub enum TargetAction {
    /// The path does not exist: report "path does not exist" and count it
    /// fatal; nothing is attempted against the filesystem.
    ReportMissing,
    /// The path does not exist but the run was forced: success, nothing
    /// to do.
    SkipMissing,
    /// Refuse outright: the target is the filesystem root or a drive
    /// root, which not even a forced run may delete.
    RefuseRoot,
    /// Refuse: the target is a protected path and the run was not forced.
    RefuseProtected,
    /// Delegate to the trash facility instead of deleting permanently.
    MoveToTrash,
    /// The target's metadata cannot be read: report and count it fatal.
    ReportMetadataError,
    /// A single regular file or symlink: unlink it directly, without the
    /// directory-scan machinery.
    UnlinkDirectly,
    /// A directory: run the deletion engine on it.
    RunEngine,
}

/// The driver's decision for one target, from the checks' outcomes alone,
/// applied in this order: existence, the unconditional root guard, the
/// overridable protected guard, the trash delegation, the metadata read,
/// and the file/directory split.
pub open spec fn spec_plan_target(
    exists: bool,
    force: bool,
    use_trash: bool,
    force_protected: bool,
    protected: bool,
    kind: Option<EntryKind>,
) -> TargetAction {
    if !exists {
        if force {
            TargetAction::SkipMissing
        } else {
            TargetAction::ReportMissing
        }
    } else if force_protected {
        TargetAction::RefuseRoot
    } else if protected && !force {
        TargetAction::RefuseProtected
    } else if use_trash {
        TargetAction::MoveToTrash
    } else {
        match kind {
            None => TargetAction::ReportMetadataError,
            Some(EntryKind::RegularFile) => TargetAction::UnlinkDirectly,
            Some(EntryKind::Symlink) => TargetAction::UnlinkDirectly,
            Some(EntryKind::Directory) => TargetAction::RunEngine,
            Some(EntryKind::Unknown) => TargetAction::RunEngine,
        }
    }
}

/// Decide what to do with one target.  An already-deleted path is
/// reported as missing, never attempted; the engine runs only on an
/// existing, unprotected directory.
pub fn plan_target(
    exists: bool,
    force: bool,
    use_trash: bool,
    force_protected: bool,
    protected: bool,
    kind: Option<EntryKind>,
) -> (a: TargetAction)
    ensures
        a == spec_plan_target(exists, force, use_trash, force_protected, protected, kind),
{
    if !exists {
        if force {
            TargetAction::SkipMissing
        } else {
            TargetAction::ReportMissing
        }
    } else if force_protected {
        TargetAction::RefuseRoot
    } else if protected && !force {
        TargetAction::RefuseProtected
    } else if use_trash {
        TargetAction::MoveToTrash
    } else {
        match kind {
            None => TargetAction::ReportMetadataError,
            Some(EntryKind::RegularFile) | Some(EntryKind::Symlink) => {
                TargetAction::UnlinkDirectly
            },
            Some(EntryKind::Directory) | Some(EntryKind::Unknown) => TargetAction::RunEngine,
        }
    }
}

/// The exit status one engine run maps to: partial failure when any
/// deletion failed, success otherwise.
pub fn exit_code_for_stats(stats: &LocalStats) -> (c: i32)
    ensures
        c == if stats.failures > 0 {
            EXIT_ERROR
        } else {
            EXIT_SUCCESS
        },
{
    if stats.failures > 0 {
        EXIT_ERROR
    } else {
        EXIT_SUCCESS
    }
}

/// The aggregate outcome over several targets of one invocation.
#[derive(Clone, Copy, PartialEq, Eq, Structural, Debug)]
pub struct RunSummary {
    pub partial_failure: bool,
    pub fatal_error: bool,
}

impl RunSummary {
    pub fn new() -> (s: RunSummary)
        ensures
            !s.partial_failure,
            !s.fatal_error,
    {
        RunSummary { partial_failure: false, fatal_error: false }
    }

    /// Fold one target's exit status into the aggregate.  A fatal status
    /// counts only as a partial failure when the run was forced.
    pub fn record(&mut self, code: i32, force: bool)
        ensures
            final(self).partial_failure == (old(self).partial_failure || code == EXIT_ERROR || (
            code == EXIT_FATAL && force)),
            final(self).fatal_error == (old(self).fatal_error || (code == EXIT_FATAL && !force)),
    {
        if code == EXIT_ERROR {
            self.partial_failure = true;
        } else if code == EXIT_FATAL {
            if force {
                self.partial_failure = true;
            } else {
                self.fatal_error = true;
            }
        }
    }

    /// The process exit status: fatal beats partial beats success.
    pub fn exit_code(&self) -> (c: i32)
        ensures
            c == if self.fatal_error {
                EXIT_FATAL
            } else if self.partial_failure {
                EXIT_ERROR
            } else {
                EXIT_SUCCESS
            },
    {
        if self.fatal_error {
            EXIT_FATAL
        } else if self.partial_failure {
            EXIT_ERROR
        } else {
            EXIT_SUCCESS
        }
    }
}

} // verus!
