//! The scope guard of a temporary mount point.
//!
//! A guard stands for a temporary directory that is an active mount. When
//! the scope that holds it ends, the mount is undone, unless the guard was
//! defused because the mount was handed on. The guard itself only decides:
//! `release` says whether, and what, to unmount, and says so at most once.

use vstd::prelude::*;
use crate::path::copy_bytes;

verus! {

/// What a guard is, as plain values.
pub struct GuardView {
    /// The guarded mount point.
    pub path: Seq<u8>,
    /// True until the guard is defused or released.
    pub active: bool,
}

impl GuardView {
    /// The guard after it has been defused.
    pub open spec fn defused(self) -> GuardView {
        GuardView { path: self.path, active: false }
    }

    /// The path to unmount when the guard is released now, if any.
    pub open spec fn unmount_on_release(self) -> Option<Seq<u8>> {
        if self.active {
            Some(self.path)
        } else {
            None
        }
    }

    /// The guard after it has been released.
    pub open spec fn released(self) -> GuardView {
        GuardView { path: self.path, active: false }
    }
}

/// The state of a guard over a temporary directory that is an active mount.
#[derive(Debug)]
pub struct MountGuard {
    path: Vec<u8>,
    active: bool,
}

impl View for MountGuard {
    type V = GuardView;

    closed spec fn view(&self) -> GuardView {
        GuardView { path: self.path@, active: self.active }
    }
}

impl MountGuard {
    /// A guard over the mount at `path`, armed.
    pub fn acquire(path: Vec<u8>) -> (guard: MountGuard)
        ensures
            guard@ == (GuardView { path: path@, active: true }),
    {
        MountGuard { path, active: true }
    }

    /// The guarded mount point.
    pub fn path(&self) -> (path: &Vec<u8>)
        ensures
            path@ == self@.path,
    {
        &self.path
    }

    /// Whether releasing the guard would still unmount.
    pub fn is_active(&self) -> (active: bool)
        ensures
            active == self@.active,
    {
        self.active
    }

    /// Marks the mount as handed on: from now on a release unmounts nothing.
    /// There is no way back.
    pub fn defuse(&mut self)
        ensures
            final(self)@ == old(self)@.defused(),
    {
        self.active = false;
    }

    /// The end of the guard's scope. Returns the path to unmount, which is
    /// the guarded path if the guard was still armed and nothing otherwise,
    /// and leaves the guard disarmed, so that a second release returns
    /// nothing.
    pub fn release(&mut self) -> (unmount: Option<Vec<u8>>)
        ensures
            final(self)@ == old(self)@.released(),
            unmount is Some == old(self)@.active,
            unmount matches Some(path) ==> path@ == old(self)@.path,
    {
        if self.active {
            self.active = false;
            Some(copy_bytes(&self.path))
        } else {
            None
        }
    }
}

/// How many unmounts a guard performs over a run of scope ends, the guard
/// being released at each of them in turn.
pub open spec fn unmounts_over(guard: GuardView, releases: nat) -> nat
    decreases releases,
{
    if releases == 0 {
        0
    } else {
        (if guard.unmount_on_release() is Some { 1nat } else { 0nat })
            + unmounts_over(guard.released(), (releases - 1) as nat)
    }
}

/// A guard that is released without having been defused unmounts its path,
/// and does so exactly once however often its release is run afterwards.
pub proof fn lemma_armed_guard_unmounts_once(guard: GuardView, releases: nat)
    requires
        guard.active,
        releases >= 1,
    ensures
        guard.unmount_on_release() == Some(guard.path),
        unmounts_over(guard, releases) == 1,
{
    lemma_disarmed_guard_never_unmounts(guard.released(), (releases - 1) as nat);
}

/// A guard that is not armed performs no unmount, however often it is
/// released.
pub proof fn lemma_disarmed_guard_never_unmounts(guard: GuardView, releases: nat)
    requires
        !guard.active,
    ensures
        guard.unmount_on_release() is None,
        unmounts_over(guard, releases) == 0,
    decreases releases,
{
    if releases > 0 {
        lemma_disarmed_guard_never_unmounts(guard.released(), (releases - 1) as nat);
    }
}

/// A defused guard performs no unmount when its scope ends, whatever it
/// was before.
pub proof fn lemma_defused_guard_never_unmounts(guard: GuardView, releases: nat)
    ensures
        guard.defused().unmount_on_release() is None,
        unmounts_over(guard.defused(), releases) == 0,
{
    lemma_disarmed_guard_never_unmounts(guard.defused(), releases);
}

} // verus!
