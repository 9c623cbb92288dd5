use user_chroot::guard::MountGuard;

#[test]
fn armed_guard_unmounts_once() {
    let mut guard = MountGuard::acquire(b"/tmp/root".to_vec());
    assert!(guard.is_active());
    assert_eq!(guard.release(), Some(b"/tmp/root".to_vec()));
    assert!(!guard.is_active());
    assert_eq!(guard.release(), None);
}

#[test]
fn defused_guard_never_unmounts() {
    let mut guard = MountGuard::acquire(b"/tmp/root".to_vec());
    guard.defuse();
    assert!(!guard.is_active());
    assert_eq!(guard.path(), &b"/tmp/root".to_vec());
    assert_eq!(guard.release(), None);
    assert_eq!(guard.release(), None);
}
