//! The operations that a stage of the setup asks for.
//!
//! A plan is a list of actions to carry out in order. Each action is one
//! operation on the machine together with the way its failure is treated.

use vstd::prelude::*;
use vstd::string::StringSliceAdditionalSpecFns;
use crate::flags::{MountFlags, NamespaceFlags};
use crate::path::{bytes_of, copy_bytes};

verus! {

/// How the failure of an operation is treated.
#[derive(Clone, Copy, PartialEq, Eq, Debug, Structural)]
pub enum OnFailure {
    /// The process ends at once, with a diagnostic that names the operation.
    Abort,
    /// The failure is passed over: the operation is made on a best effort.
    Ignore,
    /// "Already exists" is passed over; any other failure ends the process.
    IgnoreExisting,
    /// The failure is reported on standard error and the process exits
    /// with status 1.
    Report,
}

/// One operation on the machine.
#[derive(PartialEq, Eq, Debug)]
pub enum Step {
    /// Leave the namespaces that `namespaces` names, in one call.
    Unshare { namespaces: NamespaceFlags },
    /// Create or truncate the file at `path` and write `content` to it.
    WriteFile { path: Vec<u8>, content: Vec<u8> },
    /// Mount `source` at `target`.
    Mount {
        source: Vec<u8>,
        target: Vec<u8>,
        fstype: Vec<u8>,
        flags: MountFlags,
        data: Option<Vec<u8>>,
    },
    /// Set the permission bits of `path` to `mode`.
    SetMode { path: Vec<u8>, mode: u32 },
    /// Create the directory `path`; with `parents`, its missing parents too,
    /// and an existing directory is in order.
    CreateDir { path: Vec<u8>, parents: bool },
    /// Create an empty file at `path`.
    CreateFile { path: Vec<u8> },
    /// Create at `link` a symbolic link that points to `target`.
    Symlink { target: Vec<u8>, link: Vec<u8> },
    /// Make `new_root` the root of the process, and move the old root to
    /// `put_old`.
    PivotRoot { new_root: Vec<u8>, put_old: Vec<u8> },
    /// Defuse the guard of the temporary mount at `path`.
    DefuseGuard { path: Vec<u8> },
    /// End the scope of the guard of the temporary mount at `path`.
    ReleaseGuard { path: Vec<u8> },
    /// Change the working directory to `path`.
    ChangeDir { path: Vec<u8> },
    /// Replace the process image by `command`, run with `args`.
    Exec { command: Vec<u8>, args: Vec<Vec<u8>> },
}

/// An operation on the machine, as plain values.
pub enum StepView {
    Unshare { namespaces: NamespaceFlags },
    WriteFile { path: Seq<u8>, content: Seq<u8> },
    Mount {
        source: Seq<u8>,
        target: Seq<u8>,
        fstype: Seq<u8>,
        flags: MountFlags,
        data: Option<Seq<u8>>,
    },
    SetMode { path: Seq<u8>, mode: u32 },
    CreateDir { path: Seq<u8>, parents: bool },
    CreateFile { path: Seq<u8> },
    Symlink { target: Seq<u8>, link: Seq<u8> },
    PivotRoot { new_root: Seq<u8>, put_old: Seq<u8> },
    DefuseGuard { path: Seq<u8> },
    ReleaseGuard { path: Seq<u8> },
    ChangeDir { path: Seq<u8> },
    Exec { command: Seq<u8>, args: Seq<Seq<u8>> },
}

impl StepView {
    /// The path at which the step puts something: the directory, file or
    /// link that it creates, or the place that it mounts over.
    pub open spec fn placed_path(self) -> Option<Seq<u8>> {
        match self {
            StepView::Mount { target, .. } => Some(target),
            StepView::CreateDir { path, .. } => Some(path),
            StepView::CreateFile { path } => Some(path),
            StepView::Symlink { link, .. } => Some(link),
            _ => None,
        }
    }
}

/// The byte strings that a list holds.
pub open spec fn byte_strings(list: Seq<Vec<u8>>) -> Seq<Seq<u8>> {
    Seq::new(list.len(), |i: int| list[i]@)
}

/// The bytes that an optional byte string holds.
pub open spec fn optional_bytes(bytes: Option<Vec<u8>>) -> Option<Seq<u8>> {
    match bytes {
        Some(b) => Some(b@),
        None => None,
    }
}

impl View for Step {
    type V = StepView;

    open spec fn view(&self) -> StepView {
        match *self {
            Step::Unshare { namespaces } => StepView::Unshare { namespaces },
            Step::WriteFile { path, content } => StepView::WriteFile {
                path: path@,
                content: content@,
            },
            Step::Mount { source, target, fstype, flags, data } => StepView::Mount {
                source: source@,
                target: target@,
                fstype: fstype@,
                flags,
                data: optional_bytes(data),
            },
            Step::SetMode { path, mode } => StepView::SetMode { path: path@, mode },
            Step::CreateDir { path, parents } => StepView::CreateDir { path: path@, parents },
            Step::CreateFile { path } => StepView::CreateFile { path: path@ },
            Step::Symlink { target, link } => StepView::Symlink { target: target@, link: link@ },
            Step::PivotRoot { new_root, put_old } => StepView::PivotRoot {
                new_root: new_root@,
                put_old: put_old@,
            },
            Step::DefuseGuard { path } => StepView::DefuseGuard { path: path@ },
            Step::ReleaseGuard { path } => StepView::ReleaseGuard { path: path@ },
            Step::ChangeDir { path } => StepView::ChangeDir { path: path@ },
            Step::Exec { command, args } => StepView::Exec {
                command: command@,
                args: byte_strings(args@),
            },
        }
    }
}

/// An operation together with the treatment of its failure.
#[derive(PartialEq, Eq, Debug)]
pub struct Action {
    /// What to do.
    pub step: Step,
    /// What to do when it fails.
    pub on_failure: OnFailure,
}

/// An action, as plain values.
pub struct ActionView {
    pub step: StepView,
    pub on_failure: OnFailure,
}

impl View for Action {
    type V = ActionView;

    open spec fn view(&self) -> ActionView {
        ActionView { step: self.step@, on_failure: self.on_failure }
    }
}

/// The actions of a plan, as plain values.
pub open spec fn plan_view(plan: Seq<Action>) -> Seq<ActionView> {
    Seq::new(plan.len(), |i: int| plan[i]@)
}

/// The name that stands for "no device" and "no file system type".
pub open spec fn no_name() -> Seq<u8> {
    "none".spec_bytes()
}

/// The name of the in-memory file system.
pub open spec fn tmpfs_name() -> Seq<u8> {
    "tmpfs".spec_bytes()
}

/// The mount option that gives the root of an in-memory file system the
/// mode 0755.
pub open spec fn mode_option() -> Seq<u8> {
    "mode=0755".spec_bytes()
}

/// The permission bits of a directory that its owner may change and all may
/// read and enter.
pub const DIRECTORY_MODE: u32 = 0o755;

impl ActionView {
    /// A step that ends the process when it fails.
    pub open spec fn fatal(step: StepView) -> ActionView {
        ActionView { step, on_failure: OnFailure::Abort }
    }

    /// A recursive bind mount of `source` at `target`.
    pub open spec fn bind_mount(source: Seq<u8>, target: Seq<u8>) -> ActionView {
        ActionView::fatal(
            StepView::Mount {
                source,
                target,
                fstype: no_name(),
                flags: MountFlags::spec_bind_recursive(),
                data: None,
            },
        )
    }

    /// The mount at `target` and all below it made private.
    pub open spec fn make_private(target: Seq<u8>) -> ActionView {
        ActionView::fatal(
            StepView::Mount {
                source: no_name(),
                target,
                fstype: no_name(),
                flags: MountFlags::spec_private_recursive(),
                data: None,
            },
        )
    }

    /// A fresh in-memory file system at `target`, with the mount options
    /// `data`.
    pub open spec fn mount_tmpfs(target: Seq<u8>, data: Option<Seq<u8>>) -> ActionView {
        ActionView::fatal(
            StepView::Mount {
                source: no_name(),
                target,
                fstype: tmpfs_name(),
                flags: MountFlags::spec_empty(),
                data,
            },
        )
    }

    /// The mount at `target` turned read-only, with all below it.
    pub open spec fn remount_read_only(target: Seq<u8>) -> ActionView {
        ActionView::fatal(
            StepView::Mount {
                source: no_name(),
                target,
                fstype: no_name(),
                flags: MountFlags::spec_remount_read_only(),
                data: None,
            },
        )
    }
}

impl Action {
    /// A step that ends the process when it fails.
    pub fn fatal(step: Step) -> (action: Action)
        ensures
            action@ == ActionView::fatal(step@),
            action.step == step,
    {
        Action { step, on_failure: OnFailure::Abort }
    }

    /// A recursive bind mount of `source` at `target`.
    pub fn bind_mount(source: &Vec<u8>, target: &Vec<u8>) -> (action: Action)
        ensures
            action@ == ActionView::bind_mount(source@, target@),
    {
        Action::fatal(
            Step::Mount {
                source: copy_bytes(source),
                target: copy_bytes(target),
                fstype: bytes_of("none"),
                flags: MountFlags::bind_recursive(),
                data: None,
            },
        )
    }

    /// The mount at `target` and all below it made private.
    pub fn make_private(target: &Vec<u8>) -> (action: Action)
        ensures
            action@ == ActionView::make_private(target@),
    {
        Action::fatal(
            Step::Mount {
                source: bytes_of("none"),
                target: copy_bytes(target),
                fstype: bytes_of("none"),
                flags: MountFlags::private_recursive(),
                data: None,
            },
        )
    }

    /// A fresh in-memory file system at `target`; with `with_mode`, its
    /// root is given the mode 0755 by a mount option.
    pub fn mount_tmpfs(target: &Vec<u8>, with_mode: bool) -> (action: Action)
        ensures
            action@ == ActionView::mount_tmpfs(
                target@,
                if with_mode {
                    Some(mode_option())
                } else {
                    None
                },
            ),
    {
        let data = if with_mode {
            Some(bytes_of("mode=0755"))
        } else {
            None
        };
        Action::fatal(
            Step::Mount {
                source: bytes_of("none"),
                target: copy_bytes(target),
                fstype: bytes_of("tmpfs"),
                flags: MountFlags::empty(),
                data,
            },
        )
    }

    /// The mount at `target` turned read-only, with all below it.
    pub fn remount_read_only(target: &Vec<u8>) -> (action: Action)
        ensures
            action@ == ActionView::remount_read_only(target@),
    {
        Action::fatal(
            Step::Mount {
                source: bytes_of("none"),
                target: copy_bytes(target),
                fstype: bytes_of("none"),
                flags: MountFlags::remount_read_only(),
                data: None,
            },
        )
    }
}

/// Adds `action` at the end of `plan`.
pub fn push_action(plan: &mut Vec<Action>, action: Action)
    ensures
        plan_view(final(plan)@) == plan_view(old(plan)@).push(action@),
{
    plan.push(action);
    assert(plan_view(plan@) =~= plan_view(old(plan)@).push(action@));
}

/// Moves the actions of `more` to the end of `plan`.
pub fn append_plan(plan: &mut Vec<Action>, more: Vec<Action>)
    ensures
        plan_view(final(plan)@) == plan_view(old(plan)@) + plan_view(more@),
{
    let mut more = more;
    let ghost added = more@;
    plan.append(&mut more);
    assert(plan_view(plan@) =~= plan_view(old(plan)@) + plan_view(added));
}

} // verus!
