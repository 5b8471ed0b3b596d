use vstd::prelude::*;

verus! {

/// Deletion counters accumulated by one worker, or by a whole run after the
/// per-worker counters have been merged.
#[derive(Clone, Copy, PartialEq, Eq, Structural, Debug)]
pub struct LocalStats {
    pub files_deleted: usize,
    pub dirs_deleted: usize,
    pub failures: usize,
}

impl LocalStats {
    pub fn new() -> (s: LocalStats)
        ensures
            s.files_deleted == 0,
            s.dirs_deleted == 0,
            s.failures == 0,
    {
        LocalStats { files_deleted: 0, dirs_deleted: 0, failures: 0 }
    }

    /// Fold another accumulator into this one.  The merge is additive, so
    /// the order in which several accumulators are folded does not matter.
    pub fn merge(&mut self, other: &LocalStats)
        requires
            old(self).files_deleted + other.files_deleted <= usize::MAX,
            old(self).dirs_deleted + other.dirs_deleted <= usize::MAX,
            old(self).failures + other.failures <= usize::MAX,
        ensures
            final(self).files_deleted == old(self).files_deleted + other.files_deleted,
            final(self).dirs_deleted == old(self).dirs_deleted + other.dirs_deleted,
            final(self).failures == old(self).failures + other.failures,
    {
        self.files_deleted = self.files_deleted + other.files_deleted;
        self.dirs_deleted = self.dirs_deleted + other.dirs_deleted;
        self.failures = self.failures + other.failures;
    }
}

} // verus!
