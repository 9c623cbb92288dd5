use user_chroot::flags::{MountFlags, NamespaceFlags};
use user_chroot::identity::NamespaceIdentityMapping;
use user_chroot::layout::{
    is_relocation_name, new_root, outer_store_parent, outer_store_path, relocated_root,
    relocation_name, store_name, store_path,
};
use user_chroot::namespace::enter_namespace;
use user_chroot::pivot::pivot_root;
use user_chroot::plan::{append_plan, push_action, Action, OnFailure, Step, DIRECTORY_MODE};

fn bytes(text: &str) -> Vec<u8> {
    text.as_bytes().to_vec()
}

fn fatal(step: Step) -> Action {
    Action { step, on_failure: OnFailure::Abort }
}

fn mount(source: &str, target: &str, fstype: &str, flags: MountFlags, data: Option<&str>) -> Action {
    fatal(Step::Mount {
        source: bytes(source),
        target: bytes(target),
        fstype: bytes(fstype),
        flags,
        data: data.map(bytes),
    })
}

#[test]
fn layout_paths() {
    assert_eq!(new_root(), bytes("/"));
    assert_eq!(relocation_name(), bytes("nix"));
    assert_eq!(store_name(), bytes("store"));
    assert_eq!(relocated_root(), bytes("/nix"));
    assert_eq!(store_path(), bytes("/nix/store"));
    assert_eq!(outer_store_parent(), bytes("/nix/nix"));
    assert_eq!(outer_store_path(), bytes("/nix/nix/store"));
}

#[test]
fn relocation_name_is_recognised() {
    assert!(is_relocation_name(&bytes("nix")));
    assert!(!is_relocation_name(&bytes("Nix")));
    assert!(!is_relocation_name(&bytes("nix ")));
    assert!(!is_relocation_name(&bytes("/nix")));
    assert!(!is_relocation_name(&bytes("")));
}

#[test]
fn namespace_is_entered_in_strict_order() {
    let plan = enter_namespace(&NamespaceIdentityMapping::new(1000, 100));
    assert_eq!(
        plan,
        vec![
            fatal(Step::Unshare { namespaces: NamespaceFlags { mount: true, user: true } }),
            Action {
                step: Step::WriteFile {
                    path: bytes("/proc/self/setgroups"),
                    content: bytes("deny")
                },
                on_failure: OnFailure::Ignore,
            },
            fatal(Step::WriteFile {
                path: bytes("/proc/self/uid_map"),
                content: bytes("1000 1000 1")
            }),
            fatal(Step::WriteFile {
                path: bytes("/proc/self/gid_map"),
                content: bytes("100 100 1")
            }),
        ]
    );
}

#[test]
fn root_is_pivoted_onto_the_temporary_directory() {
    let plan = pivot_root(&bytes("/tmp/.tmpXyZ"));
    assert_eq!(
        plan,
        vec![
            mount("/", "/", "none", MountFlags::bind_recursive(), None),
            mount("none", "/", "none", MountFlags::private_recursive(), None),
            mount("none", "/tmp/.tmpXyZ", "tmpfs", MountFlags::empty(), None),
            fatal(Step::SetMode { path: bytes("/tmp/.tmpXyZ"), mode: 0o755 }),
            fatal(Step::CreateDir { path: bytes("/tmp/.tmpXyZ/nix"), parents: false }),
            fatal(Step::PivotRoot {
                new_root: bytes("/tmp/.tmpXyZ"),
                put_old: bytes("/tmp/.tmpXyZ/nix")
            }),
            fatal(Step::DefuseGuard { path: bytes("/tmp/.tmpXyZ") }),
            fatal(Step::ChangeDir { path: bytes("/") }),
        ]
    );
    assert_eq!(DIRECTORY_MODE, 0o755);
}

#[test]
fn action_constructors() {
    assert_eq!(
        Action::bind_mount(&bytes("/a"), &bytes("/b")),
        mount("/a", "/b", "none", MountFlags::bind_recursive(), None)
    );
    assert_eq!(
        Action::make_private(&bytes("/")),
        mount("none", "/", "none", MountFlags::private_recursive(), None)
    );
    assert_eq!(
        Action::mount_tmpfs(&bytes("/nix"), true),
        mount("none", "/nix", "tmpfs", MountFlags::empty(), Some("mode=0755"))
    );
    assert_eq!(
        Action::mount_tmpfs(&bytes("/nix"), false),
        mount("none", "/nix", "tmpfs", MountFlags::empty(), None)
    );
    assert_eq!(
        Action::remount_read_only(&bytes("/nix/store")),
        mount("none", "/nix/store", "none", MountFlags::remount_read_only(), None)
    );
    assert_eq!(
        Action::fatal(Step::CreateFile { path: bytes("/x") }),
        fatal(Step::CreateFile { path: bytes("/x") })
    );
}

#[test]
fn plans_grow_at_the_end() {
    let mut plan = vec![fatal(Step::CreateFile { path: bytes("/a") })];
    push_action(&mut plan, fatal(Step::CreateFile { path: bytes("/b") }));
    append_plan(
        &mut plan,
        vec![fatal(Step::CreateFile { path: bytes("/c") }), fatal(Step::CreateFile { path: bytes("/d") })],
    );
    let paths: Vec<Vec<u8>> = plan
        .iter()
        .map(|a| match &a.step {
            Step::CreateFile { path } => path.clone(),
            _ => unreachable!(),
        })
        .collect();
    assert_eq!(paths, vec![bytes("/a"), bytes("/b"), bytes("/c"), bytes("/d")]);
}
