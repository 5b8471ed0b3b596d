//! A verified core for a fast, parallel recursive deleter.
//!
//! The library holds the logic of the deletion engine: the shared work
//! queue of pending directory scans, the pending-job counter protocol that
//! detects when traversal is complete, the per-directory scan bookkeeping,
//! the depth-ordered finalization of deferred directories, and the
//! decisions of the command-line driver (protected paths, thread counts,
//! exit codes).  The filesystem calls themselves, and the thread pool that
//! performs them, live outside the library and drive it through the
//! functions defined here.

pub mod config;
pub mod deferred;
pub mod guard;
pub mod engine;
pub mod queue;
pub mod stats;
