//! The process-group bookkeeping.
//!
//! A [`JobObjectManager`] stands for one kernel grouping object whose
//! policy is "terminate every member when the handle is closed". The
//! kernel calls themselves happen in the platform binding; this type
//! decides them and records their effect: which raw handle the group
//! wraps (`0` when creation failed and the launcher runs degraded),
//! which processes were registered, and whether the group was already
//! released. Membership is append-only, and release closes the handle
//! at most once, however often it is requested.

use vstd::prelude::*;

verus! {

pub struct JobObjectManager {
    handle: usize,
    released: bool,
    members: Ghost<Seq<usize>>,
}

/// What one `release` call does: `closed` says whether the kernel handle
/// is actually closed by it, and `post` is the group state afterwards.
pub open spec fn release_rel(pre: JobObjectManager, post: JobObjectManager, closed: bool) -> bool {
    &&& closed == (pre.handle() != 0 && !pre.released())
    &&& post.handle() == pre.handle()
    &&& post.released()
    &&& post.members() == pre.members()
}

impl JobObjectManager {
    /// The raw kernel handle this group wraps; `0` means the group is
    /// degraded and every registration is a no-op.
    pub closed spec fn handle(self) -> usize {
        self.handle
    }

    /// Whether the group was already released.
    pub closed spec fn released(self) -> bool {
        self.released
    }

    /// The raw handles of every process registered so far, in
    /// registration order.
    pub closed spec fn members(self) -> Seq<usize> {
        self.members@
    }

    /// Whether a registration of `process` would reach the kernel.
    pub open spec fn accepts(self, process: usize) -> bool {
        self.handle() != 0 && process != 0 && !self.released()
    }

    /// Wraps the raw handle of a freshly created kernel grouping object.
    /// A failed creation is passed in as `0`: the launcher then proceeds
    /// degraded rather than refusing to start the game at all.
    pub fn new(handle: usize) -> (g: JobObjectManager)
        ensures
            g.handle() == handle,
            !g.released(),
            g.members() == Seq::<usize>::empty(),
    {
        JobObjectManager { handle, released: false, members: Ghost(Seq::empty()) }
    }

    /// Decides and records the registration of one spawned process.
    /// The caller performs the kernel call exactly when `accepted` is
    /// true; a degraded group, an invalid process handle, or a group
    /// already released make it a silent no-op.
    pub fn assign_process(&mut self, process: usize) -> (accepted: bool)
        ensures
            accepted == old(self).accepts(process),
            final(self).handle() == old(self).handle(),
            final(self).released() == old(self).released(),
            accepted ==> final(self).members() == old(self).members().push(process),
            !accepted ==> final(self).members() == old(self).members(),
    {
        let accepted = self.handle != 0 && process != 0 && !self.released;
        if accepted {
            proof {
                self.members@ = self.members@.push(process);
            }
        }
        accepted
    }

    /// Decides the release of the group. The caller closes the kernel
    /// handle exactly when `closed` is true, which happens at most once
    /// in the life of the group: releasing again, or releasing a group
    /// that was never created, is a safe no-op.
    pub fn release(&mut self) -> (closed: bool)
        ensures
            release_rel(*old(self), *final(self), closed),
    {
        let closed = self.handle != 0 && !self.released;
        self.released = true;
        closed
    }

    /// The wrapped raw handle, for the platform binding and for tests.
    pub fn raw_handle(&self) -> (h: usize)
        ensures
            h == self.handle(),
    {
        self.handle
    }

    /// Whether the group was already released, for tests.
    pub fn is_released(&self) -> (b: bool)
        ensures
            b == self.released(),
    {
        self.released
    }
}

/// Releasing twice never closes the kernel handle twice: whatever state
/// the group is in, at most one of two consecutive release calls reports
/// that it closed the handle.
pub proof fn lemma_release_idempotent(
    g0: JobObjectManager,
    g1: JobObjectManager,
    g2: JobObjectManager,
    closed1: bool,
    closed2: bool,
)
    requires
        release_rel(g0, g1, closed1),
        release_rel(g1, g2, closed2),
    ensures
        !closed2,
{
}

} // verus!
