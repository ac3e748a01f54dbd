//! Time-boxed discovery scanning.
//!
//! A scan starts platform discovery and then waits a fixed duration before
//! signalling completion; it returns no peripheral set (callers resolve
//! addresses independently).  The wait is a cooperative delay — it must
//! never stall unrelated concurrent operations.  Requesting a scan while one
//! is already active starts nothing new: the request rides the existing scan
//! to completion.

use vstd::prelude::*;

verus! {

/// What a caller that requested a scan must do next.
#[derive(Clone, Copy, Debug, PartialEq, Eq, Structural)]
pub enum ScanAction {
    /// No scan was active: start platform discovery, then wait the plan's
    /// duration cooperatively.
    StartPlatformScan,
    /// A scan is already active: start nothing and ride it to completion.
    JoinActiveScan,
}

/// The action a scan request triggers, as a function of whether a scan is
/// already active.
pub open spec fn scan_action_for(active: bool) -> ScanAction {
    if active {
        ScanAction::JoinActiveScan
    } else {
        ScanAction::StartPlatformScan
    }
}

/// The plan a scan request hands back to the driver: the action plus the
/// cooperative delay to observe before the scan counts as complete.
#[derive(Clone, Copy, Debug, PartialEq, Eq, Structural)]
pub struct ScanPlan {
    pub action: ScanAction,
    /// Milliseconds to wait cooperatively (an asynchronous, cancellable
    /// timer, never a thread-halting sleep).
    pub wait_ms: u64,
}

/// Tracks whether a discovery scan is currently active.
pub struct Scanner {
    active: bool,
}

impl Scanner {
    /// Whether a scan is active right now.
    pub closed spec fn active(self) -> bool {
        self.active
    }

    /// A fresh scanner: nothing active.
    pub fn new() -> (s: Self)
        ensures
            !s.active(),
    {
        Scanner { active: false }
    }

    /// Requests a time-boxed scan.  If none is active, the caller starts
    /// platform discovery and the scanner records it as active; if one is
    /// already active, the caller starts nothing and rides the existing scan
    /// (a no-op).  Either way the caller waits the returned duration.
    pub fn scan_begin(&mut self, duration_ms: u64) -> (p: ScanPlan)
        ensures
            p.action == scan_action_for(old(self).active()),
            p.wait_ms == duration_ms,
            final(self).active(),
    {
        let action = if self.active {
            ScanAction::JoinActiveScan
        } else {
            ScanAction::StartPlatformScan
        };
        self.active = true;
        ScanPlan { action, wait_ms: duration_ms }
    }

    /// Marks the scan complete once the delay has elapsed.
    pub fn scan_end(&mut self)
        ensures
            !final(self).active(),
    {
        self.active = false;
    }
}

/// A scan requested while one is active is a no-op that rides the existing
/// scan: it never starts a second platform scan.
pub proof fn lemma_scan_join_is_noop(active: bool)
    requires
        active,
    ensures
        scan_action_for(active) is JoinActiveScan,
{
}

} // verus!
