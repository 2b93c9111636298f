//! Ownership record for the spawned backend process.
//!
//! Exactly one backend child exists per supervisor run. The slot is written
//! once by the spawn step and consumed once by the host-exit handler; the
//! host shares it between those two contexts behind a lock, held only for
//! the take-and-signal operation. An empty slot means "not running".

use vstd::prelude::*;

verus! {

/// The slot holding the identifier of the spawned backend process, and a
/// count of the termination signals issued through it.
#[derive(Clone, Copy, PartialEq, Eq, Structural, Debug)]
pub struct ProcessSlot {
    pub child: Option<u32>,
    pub kill_signals: u32,
}

impl ProcessSlot {
    /// A fresh slot: no child, no signal issued.
    pub fn new() -> (s: ProcessSlot)
        ensures
            s.child is None,
            s.kill_signals == 0,
    {
        ProcessSlot { child: None, kill_signals: 0 }
    }

    /// Record a successful spawn. The slot must be empty: one supervisor
    /// instance never starts the backend twice.
    pub fn record_spawn(&mut self, pid: u32)
        requires
            old(self).child is None,
        ensures
            final(self).child == Some(pid),
            final(self).kill_signals == old(self).kill_signals,
    {
        self.child = Some(pid);
    }

    /// Take the child for termination. The slot is empty afterwards, and
    /// the signal count rises exactly when a child was present: a second
    /// take finds nothing and signals nothing.
    pub fn take_for_kill(&mut self) -> (taken: Option<u32>)
        requires
            old(self).kill_signals < u32::MAX,
        ensures
            taken == old(self).child,
            final(self).child is None,
            final(self).kill_signals == old(self).kill_signals + (
            if old(self).child is Some {
                1int
            } else {
                0int
            }),
    {
        let taken = self.child;
        self.child = None;
        if taken.is_some() {
            self.kill_signals = self.kill_signals + 1;
        }
        taken
    }
}

} // verus!
