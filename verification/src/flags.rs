//! The flag sets handed to the mount and unshare system calls.
//!
//! A flag set is held as one boolean per flag that the setup uses. Its
//! kernel word is put together from the words that the `nix` crate gives
//! for the single flags.

use vstd::prelude::*;

verus! {

/// The flags of one mount call.
#[derive(Clone, Copy, PartialEq, Eq, Debug, Structural)]
pub struct MountFlags {
    /// Make a bind mount.
    pub bind: bool,
    /// Apply to the whole subtree.
    pub recursive: bool,
    /// Stop mount events from propagating.
    pub private: bool,
    /// Change the flags of an existing mount.
    pub remount: bool,
    /// Refuse writes.
    pub read_only: bool,
}

/// The kernel word of the read-only flag.
pub const WORD_READ_ONLY: u64 = 0x1;

/// The kernel word of the remount flag.
pub const WORD_REMOUNT: u64 = 0x20;

/// The kernel word of the bind flag.
pub const WORD_BIND: u64 = 0x1000;

/// The kernel word of the recursive flag.
pub const WORD_RECURSIVE: u64 = 0x4000;

/// The kernel word of the private flag.
pub const WORD_PRIVATE: u64 = 0x40000;

/// The kernel word of the flag for a new mount namespace.
pub const WORD_NEW_MOUNT_NAMESPACE: i32 = 0x20000;

/// The kernel word of the flag for a new user namespace.
pub const WORD_NEW_USER_NAMESPACE: i32 = 0x1000_0000;

/// Trusted: `nix::mount::MsFlags::MS_RDONLY`, read with `bits`. The constant
/// is libc's `MS_RDONLY`, which is 0x01 on Linux.
#[verifier::external_body]
fn word_read_only() -> (word: u64)
    ensures
        word == WORD_READ_ONLY,
{
    nix::mount::MsFlags::MS_RDONLY.bits() as u64
}

/// Trusted: `nix::mount::MsFlags::MS_REMOUNT`, read with `bits`. The constant
/// is libc's `MS_REMOUNT`, which is 0x20 on Linux.
#[verifier::external_body]
fn word_remount() -> (word: u64)
    ensures
        word == WORD_REMOUNT,
{
    nix::mount::MsFlags::MS_REMOUNT.bits() as u64
}

/// Trusted: `nix::mount::MsFlags::MS_BIND`, read with `bits`. The constant is
/// libc's `MS_BIND`, which is 0x1000 on Linux.
#[verifier::external_body]
fn word_bind() -> (word: u64)
    ensures
        word == WORD_BIND,
{
    nix::mount::MsFlags::MS_BIND.bits() as u64
}

/// Trusted: `nix::mount::MsFlags::MS_REC`, read with `bits`. The constant is
/// libc's `MS_REC`, which is 0x4000 on Linux.
#[verifier::external_body]
fn word_recursive() -> (word: u64)
    ensures
        word == WORD_RECURSIVE,
{
    nix::mount::MsFlags::MS_REC.bits() as u64
}

/// Trusted: `nix::mount::MsFlags::MS_PRIVATE`, read with `bits`. The constant
/// is libc's `MS_PRIVATE`, which is 0x040000 on Linux.
#[verifier::external_body]
fn word_private() -> (word: u64)
    ensures
        word == WORD_PRIVATE,
{
    nix::mount::MsFlags::MS_PRIVATE.bits() as u64
}

/// Trusted: `nix::sched::CloneFlags::CLONE_NEWNS`, read with `bits`. The
/// constant is libc's `CLONE_NEWNS`, which is 0x20000 on Linux.
#[verifier::external_body]
fn word_new_mount_namespace() -> (word: i32)
    ensures
        word == WORD_NEW_MOUNT_NAMESPACE,
{
    nix::sched::CloneFlags::CLONE_NEWNS.bits()
}

/// Trusted: `nix::sched::CloneFlags::CLONE_NEWUSER`, read with `bits`. The
/// constant is libc's `CLONE_NEWUSER`, which is 0x10000000 on Linux.
#[verifier::external_body]
fn word_new_user_namespace() -> (word: i32)
    ensures
        word == WORD_NEW_USER_NAMESPACE,
{
    nix::sched::CloneFlags::CLONE_NEWUSER.bits()
}

impl MountFlags {
    /// No flag at all.
    pub open spec fn spec_empty() -> MountFlags {
        MountFlags { bind: false, recursive: false, private: false, remount: false, read_only: false }
    }

    /// A bind mount of a whole subtree.
    pub open spec fn spec_bind_recursive() -> MountFlags {
        MountFlags { bind: true, recursive: true, private: false, remount: false, read_only: false }
    }

    /// A whole subtree made private.
    pub open spec fn spec_private_recursive() -> MountFlags {
        MountFlags { bind: false, recursive: true, private: true, remount: false, read_only: false }
    }

    /// An existing mount turned read-only, with all below it.
    pub open spec fn spec_remount_read_only() -> MountFlags {
        MountFlags { bind: false, recursive: true, private: false, remount: true, read_only: true }
    }

    /// The kernel word of the flag set: the words of its flags, or-ed.
    pub open spec fn spec_bits(self) -> u64 {
        (if self.read_only { WORD_READ_ONLY } else { 0 })
            | (if self.remount { WORD_REMOUNT } else { 0 })
            | (if self.bind { WORD_BIND } else { 0 })
            | (if self.recursive { WORD_RECURSIVE } else { 0 })
            | (if self.private { WORD_PRIVATE } else { 0 })
    }

    /// No flag at all.
    pub fn empty() -> (flags: MountFlags)
        ensures
            flags == MountFlags::spec_empty(),
    {
        MountFlags { bind: false, recursive: false, private: false, remount: false, read_only: false }
    }

    /// A bind mount of a whole subtree.
    pub fn bind_recursive() -> (flags: MountFlags)
        ensures
            flags == MountFlags::spec_bind_recursive(),
    {
        MountFlags { bind: true, recursive: true, private: false, remount: false, read_only: false }
    }

    /// A whole subtree made private.
    pub fn private_recursive() -> (flags: MountFlags)
        ensures
            flags == MountFlags::spec_private_recursive(),
    {
        MountFlags { bind: false, recursive: true, private: true, remount: false, read_only: false }
    }

    /// An existing mount turned read-only, with all below it.
    pub fn remount_read_only() -> (flags: MountFlags)
        ensures
            flags == MountFlags::spec_remount_read_only(),
    {
        MountFlags { bind: false, recursive: true, private: false, remount: true, read_only: true }
    }

    /// The kernel word of the flag set.
    pub fn bits(&self) -> (word: u64)
        ensures
            word == self.spec_bits(),
    {
        let read_only: u64 = if self.read_only { word_read_only() } else { 0 };
        let remount: u64 = if self.remount { word_remount() } else { 0 };
        let bind: u64 = if self.bind { word_bind() } else { 0 };
        let recursive: u64 = if self.recursive { word_recursive() } else { 0 };
        let private: u64 = if self.private { word_private() } else { 0 };
        read_only | remount | bind | recursive | private
    }
}

/// The namespaces to leave in one unshare call.
#[derive(Clone, Copy, PartialEq, Eq, Debug, Structural)]
pub struct NamespaceFlags {
    /// A new mount namespace.
    pub mount: bool,
    /// A new user namespace.
    pub user: bool,
}

impl NamespaceFlags {
    /// A new user namespace and a new mount namespace, asked for together.
    pub open spec fn spec_user_and_mount() -> NamespaceFlags {
        NamespaceFlags { mount: true, user: true }
    }

    /// The kernel word of the flag set: the words of its flags, or-ed.
    pub open spec fn spec_bits(self) -> i32 {
        (if self.mount { WORD_NEW_MOUNT_NAMESPACE } else { 0 })
            | (if self.user { WORD_NEW_USER_NAMESPACE } else { 0 })
    }

    /// A new user namespace and a new mount namespace, asked for together.
    pub fn user_and_mount() -> (flags: NamespaceFlags)
        ensures
            flags == NamespaceFlags::spec_user_and_mount(),
    {
        NamespaceFlags { mount: true, user: true }
    }

    /// The kernel word of the flag set.
    pub fn bits(&self) -> (word: i32)
        ensures
            word == self.spec_bits(),
    {
        let mount: i32 = if self.mount { word_new_mount_namespace() } else { 0 };
        let user: i32 = if self.user { word_new_user_namespace() } else { 0 };
        mount | user
    }
}

/// The flag sets that the setup uses have these kernel words.
pub proof fn lemma_words_of_the_setup()
    ensures
        MountFlags::spec_empty().spec_bits() == 0,
        MountFlags::spec_bind_recursive().spec_bits() == 0x5000,
        MountFlags::spec_private_recursive().spec_bits() == 0x44000,
        MountFlags::spec_remount_read_only().spec_bits() == 0x4021,
        NamespaceFlags::spec_user_and_mount().spec_bits() == 0x1002_0000,
{
    assert(0u64 | 0 | 0 | 0 | 0 == 0) by (bit_vector);
    assert(0u64 | 0 | 0x1000 | 0x4000 | 0 == 0x5000) by (bit_vector);
    assert(0u64 | 0 | 0 | 0x4000 | 0x40000 == 0x44000) by (bit_vector);
    assert(0x1u64 | 0x20 | 0 | 0x4000 | 0 == 0x4021) by (bit_vector);
    assert(0x20000i32 | 0x1000_0000 == 0x1002_0000) by (bit_vector);
}

} // verus!
