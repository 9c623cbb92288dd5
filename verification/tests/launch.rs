use user_chroot::failure::{
    describe, failure_message, verdict, Exit, Verdict, FAILURE_STATUS,
};
use user_chroot::flags::{MountFlags, NamespaceFlags};
use user_chroot::launch::{
    copy_byte_strings, launch, parse_invocation, unresolved_store, usage, Invocation,
};
use user_chroot::plan::{Action, OnFailure, Step};

fn bytes(text: &str) -> Vec<u8> {
    text.as_bytes().to_vec()
}

fn argv(words: &[&str]) -> Vec<Vec<u8>> {
    words.iter().map(|w| bytes(w)).collect()
}

#[test]
fn fewer_than_two_arguments_yield_usage() {
    let expected = Exit { status: 1, message: bytes("Usage: nix-user-chroot <nixpath> <command>\n") };
    assert_eq!(parse_invocation(&argv(&["nix-user-chroot"])), Err(expected));
    let expected = Exit { status: 1, message: bytes("Usage: nix-user-chroot <nixpath> <command>\n") };
    assert_eq!(parse_invocation(&argv(&["nix-user-chroot", "/store"])), Err(expected));
}

#[test]
fn command_line_without_program_name_yields_usage() {
    assert_eq!(
        parse_invocation(&Vec::new()),
        Err(Exit { status: 1, message: bytes("Usage:  <nixpath> <command>\n") })
    );
}

#[test]
fn two_arguments_are_a_store_and_a_command() {
    assert_eq!(
        parse_invocation(&argv(&["prog", "/store", "bash"])),
        Ok(Invocation { store_source: bytes("/store"), command: bytes("bash"), args: Vec::new() })
    );
}

#[test]
fn further_arguments_go_to_the_command() {
    assert_eq!(
        parse_invocation(&argv(&["prog", "./store", "/bin/sh", "-c", "echo hi", ""])),
        Ok(Invocation {
            store_source: bytes("./store"),
            command: bytes("/bin/sh"),
            args: argv(&["-c", "echo hi", ""]),
        })
    );
}

#[test]
fn usage_text_names_the_program() {
    assert_eq!(
        usage(&bytes("./chroot")),
        Exit { status: FAILURE_STATUS, message: bytes("Usage: ./chroot <nixpath> <command>\n") }
    );
    assert_eq!(FAILURE_STATUS, 1);
}

#[test]
fn unresolved_store_source_is_reported_with_status_one() {
    assert_eq!(
        unresolved_store(&bytes("/does/not/exist")),
        Exit { status: 1, message: bytes("failed to resolve nix directory /does/not/exist") }
    );
}

#[test]
fn launch_restores_the_directory_then_replaces_the_process() {
    assert_eq!(
        launch(&bytes("/home/me"), &bytes("/bin/true"), &argv(&["--version"])),
        vec![
            Action { step: Step::ChangeDir { path: bytes("/home/me") }, on_failure: OnFailure::Abort },
            Action {
                step: Step::Exec { command: bytes("/bin/true"), args: argv(&["--version"]) },
                on_failure: OnFailure::Report,
            },
        ]
    );
}

#[test]
fn byte_strings_are_copied() {
    let list = argv(&["a", "", "bc"]);
    assert_eq!(copy_byte_strings(&list), list);
    assert_eq!(copy_byte_strings(&Vec::new()), Vec::<Vec<u8>>::new());
}

#[test]
fn missing_command_is_reported_with_status_one() {
    let plan = launch(&bytes("/"), &bytes("no-such-command"), &Vec::new());
    let outcome = verdict(&plan[1], &bytes("No such file or directory (os error 2)"), false);
    assert_eq!(
        outcome,
        Verdict::Exit {
            exit: Exit {
                status: 1,
                message: bytes(
                    "failed to execute no-such-command: No such file or directory (os error 2)"
                ),
            }
        }
    );
}

#[test]
fn unrestorable_directory_aborts() {
    let plan = launch(&bytes("/gone"), &bytes("true"), &Vec::new());
    assert_eq!(
        verdict(&plan[0], &bytes("ENOENT"), false),
        Verdict::Abort { message: bytes("cannot change directory to /gone: ENOENT") }
    );
}

#[test]
fn best_effort_failure_is_passed_over() {
    let action = Action {
        step: Step::WriteFile { path: bytes("/proc/self/setgroups"), content: bytes("deny") },
        on_failure: OnFailure::Ignore,
    };
    assert_eq!(verdict(&action, &bytes("EACCES"), false), Verdict::Continue);
    assert_eq!(verdict(&action, &bytes("EEXIST"), true), Verdict::Continue);
}

#[test]
fn existing_directory_is_tolerated_only_where_allowed() {
    let tolerant = Action {
        step: Step::CreateDir { path: bytes("/etc"), parents: false },
        on_failure: OnFailure::IgnoreExisting,
    };
    assert_eq!(verdict(&tolerant, &bytes("File exists"), true), Verdict::Continue);
    assert_eq!(
        verdict(&tolerant, &bytes("Permission denied"), false),
        Verdict::Abort { message: bytes("failed to create /etc: Permission denied") }
    );
    let strict = Action {
        step: Step::CreateDir { path: bytes("/nix/store/x"), parents: false },
        on_failure: OnFailure::Abort,
    };
    assert_eq!(
        verdict(&strict, &bytes("File exists"), true),
        Verdict::Abort { message: bytes("failed to create /nix/store/x: File exists") }
    );
}

fn mount_step(flags: MountFlags) -> Step {
    Step::Mount {
        source: bytes("/src"),
        target: bytes("/dst"),
        fstype: bytes("tmpfs"),
        flags,
        data: None,
    }
}

#[test]
fn every_operation_is_described_with_its_path() {
    let none = MountFlags::empty();
    let cases: Vec<(Step, &str)> = vec![
        (Step::Unshare { namespaces: NamespaceFlags::user_and_mount() }, "unshare failed"),
        (
            Step::WriteFile { path: bytes("/proc/self/uid_map"), content: bytes("0 0 1") },
            "failed to write /proc/self/uid_map",
        ),
        (mount_step(MountFlags::bind_recursive()), "failed to bind mount /src to /dst"),
        (mount_step(MountFlags::remount_read_only()), "failed to remount /dst"),
        (mount_step(MountFlags::private_recursive()), "failed to make private /dst"),
        (mount_step(none), "failed to mount tmpfs on /dst"),
        (Step::SetMode { path: bytes("/t"), mode: 0o755 }, "failed to set the mode of /t"),
        (Step::CreateDir { path: bytes("/t/nix"), parents: false }, "failed to create /t/nix"),
        (Step::CreateFile { path: bytes("/init") }, "failed to create /init"),
        (
            Step::Symlink { target: bytes("usr/bin"), link: bytes("/bin") },
            "failed to create symlink /bin -> usr/bin",
        ),
        (
            Step::PivotRoot { new_root: bytes("/t"), put_old: bytes("/t/nix") },
            "failed to pivot the root to /t",
        ),
        (Step::DefuseGuard { path: bytes("/t") }, "failed to defuse the guard of /t"),
        (Step::ReleaseGuard { path: bytes("/t") }, "failed to unmount /t"),
        (Step::ChangeDir { path: bytes("/") }, "cannot change directory to /"),
        (Step::Exec { command: bytes("bash"), args: Vec::new() }, "failed to execute bash"),
    ];
    for (step, text) in cases {
        assert_eq!(describe(&step), bytes(text));
        assert_eq!(failure_message(&step, &bytes("EPERM")), bytes(&format!("{}: EPERM", text)));
    }
}
