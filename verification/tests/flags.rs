use nix::mount::MsFlags;
use nix::sched::CloneFlags;
use user_chroot::flags::{
    MountFlags, NamespaceFlags, WORD_BIND, WORD_NEW_MOUNT_NAMESPACE, WORD_NEW_USER_NAMESPACE,
    WORD_PRIVATE, WORD_READ_ONLY, WORD_RECURSIVE, WORD_REMOUNT,
};

#[test]
fn flag_words_are_those_of_the_kernel() {
    assert_eq!(WORD_READ_ONLY, MsFlags::MS_RDONLY.bits() as u64);
    assert_eq!(WORD_REMOUNT, MsFlags::MS_REMOUNT.bits() as u64);
    assert_eq!(WORD_BIND, MsFlags::MS_BIND.bits() as u64);
    assert_eq!(WORD_RECURSIVE, MsFlags::MS_REC.bits() as u64);
    assert_eq!(WORD_PRIVATE, MsFlags::MS_PRIVATE.bits() as u64);
    assert_eq!(WORD_NEW_MOUNT_NAMESPACE, CloneFlags::CLONE_NEWNS.bits());
    assert_eq!(WORD_NEW_USER_NAMESPACE, CloneFlags::CLONE_NEWUSER.bits());
}

#[test]
fn empty_flags_have_the_word_zero() {
    let flags = MountFlags::empty();
    assert_eq!(
        flags,
        MountFlags { bind: false, recursive: false, private: false, remount: false, read_only: false }
    );
    assert_eq!(flags.bits(), 0);
    assert_eq!(flags.bits(), MsFlags::empty().bits() as u64);
}

#[test]
fn bind_recursive_word() {
    let flags = MountFlags::bind_recursive();
    assert!(flags.bind && flags.recursive && !flags.private && !flags.remount && !flags.read_only);
    assert_eq!(flags.bits(), 0x5000);
    assert_eq!(flags.bits(), (MsFlags::MS_BIND | MsFlags::MS_REC).bits() as u64);
}

#[test]
fn private_recursive_word() {
    let flags = MountFlags::private_recursive();
    assert!(!flags.bind && flags.recursive && flags.private && !flags.remount && !flags.read_only);
    assert_eq!(flags.bits(), 0x44000);
    assert_eq!(flags.bits(), (MsFlags::MS_PRIVATE | MsFlags::MS_REC).bits() as u64);
}

#[test]
fn remount_read_only_word() {
    let flags = MountFlags::remount_read_only();
    assert!(!flags.bind && flags.recursive && !flags.private && flags.remount && flags.read_only);
    assert_eq!(flags.bits(), 0x4021);
    assert_eq!(
        flags.bits(),
        (MsFlags::MS_REMOUNT | MsFlags::MS_RDONLY | MsFlags::MS_REC).bits() as u64
    );
}

#[test]
fn every_flag_set_has_the_word_of_its_flags() {
    for n in 0u32..32 {
        let flags = MountFlags {
            bind: n & 1 != 0,
            recursive: n & 2 != 0,
            private: n & 4 != 0,
            remount: n & 8 != 0,
            read_only: n & 16 != 0,
        };
        let mut expected = MsFlags::empty();
        if flags.bind {
            expected |= MsFlags::MS_BIND;
        }
        if flags.recursive {
            expected |= MsFlags::MS_REC;
        }
        if flags.private {
            expected |= MsFlags::MS_PRIVATE;
        }
        if flags.remount {
            expected |= MsFlags::MS_REMOUNT;
        }
        if flags.read_only {
            expected |= MsFlags::MS_RDONLY;
        }
        assert_eq!(flags.bits(), expected.bits() as u64);
        assert_eq!(MsFlags::from_bits(flags.bits() as _), Some(expected));
    }
}

#[test]
fn user_and_mount_namespace_word() {
    let flags = NamespaceFlags::user_and_mount();
    assert_eq!(flags, NamespaceFlags { mount: true, user: true });
    assert_eq!(flags.bits(), 0x1002_0000);
    assert_eq!(flags.bits(), (CloneFlags::CLONE_NEWNS | CloneFlags::CLONE_NEWUSER).bits());
}

#[test]
fn single_namespace_words() {
    assert_eq!(NamespaceFlags { mount: true, user: false }.bits(), 0x20000);
    assert_eq!(NamespaceFlags { mount: false, user: true }.bits(), 0x1000_0000);
    assert_eq!(NamespaceFlags { mount: false, user: false }.bits(), 0);
}
