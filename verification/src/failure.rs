//! What becomes of the process when an operation fails.
//!
//! Almost every failure ends the process at once. A few operations are
//! made on a best effort, and the failure to start the command is reported
//! with an exit status, because by then no mount is left half made.

use vstd::prelude::*;
use vstd::string::StringSliceAdditionalSpecFns;
use crate::path::{bytes_of, copy_bytes};
use crate::plan::{Action, ActionView, OnFailure, Step, StepView};

verus! {

/// The status with which the process exits after a failure that it
/// reports.
pub const FAILURE_STATUS: i32 = 1;

/// The end of the process after a reported failure.
#[derive(PartialEq, Eq, Debug)]
pub struct Exit {
    /// The exit status.
    pub status: i32,
    /// The text for standard error.
    pub message: Vec<u8>,
}

/// The end of the process, as plain values.
pub struct ExitView {
    pub status: i32,
    pub message: Seq<u8>,
}

impl View for Exit {
    type V = ExitView;

    open spec fn view(&self) -> ExitView {
        ExitView { status: self.status, message: self.message@ }
    }
}

/// What follows the failure of an operation.
#[derive(PartialEq, Eq, Debug)]
pub enum Verdict {
    /// The failure is passed over and the plan goes on.
    Continue,
    /// The process ends at once with this diagnostic.
    Abort { message: Vec<u8> },
    /// The diagnostic goes to standard error and the process exits with
    /// the status.
    Exit { exit: Exit },
}

/// A verdict, as plain values.
pub enum VerdictView {
    Continue,
    Abort { message: Seq<u8> },
    Exit { exit: ExitView },
}

impl View for Verdict {
    type V = VerdictView;

    open spec fn view(&self) -> VerdictView {
        match *self {
            Verdict::Continue => VerdictView::Continue,
            Verdict::Abort { message } => VerdictView::Abort { message: message@ },
            Verdict::Exit { exit } => VerdictView::Exit { exit: exit@ },
        }
    }
}

/// The operation that failed, in words, with the paths that it was about.
pub open spec fn spec_describe(step: StepView) -> Seq<u8> {
    match step {
        StepView::Unshare { .. } => "unshare failed".spec_bytes(),
        StepView::WriteFile { path, .. } => "failed to write ".spec_bytes() + path,
        StepView::Mount { source, target, fstype, flags, .. } => if flags.bind {
            "failed to bind mount ".spec_bytes() + source + " to ".spec_bytes() + target
        } else if flags.remount {
            "failed to remount ".spec_bytes() + target
        } else if flags.private {
            "failed to make private ".spec_bytes() + target
        } else {
            "failed to mount ".spec_bytes() + fstype + " on ".spec_bytes() + target
        },
        StepView::SetMode { path, .. } => "failed to set the mode of ".spec_bytes() + path,
        StepView::CreateDir { path, .. } => "failed to create ".spec_bytes() + path,
        StepView::CreateFile { path } => "failed to create ".spec_bytes() + path,
        StepView::Symlink { target, link } => "failed to create symlink ".spec_bytes() + link
            + " -> ".spec_bytes() + target,
        StepView::PivotRoot { new_root, .. } => "failed to pivot the root to ".spec_bytes()
            + new_root,
        StepView::DefuseGuard { path } => "failed to defuse the guard of ".spec_bytes() + path,
        StepView::ReleaseGuard { path } => "failed to unmount ".spec_bytes() + path,
        StepView::ChangeDir { path } => "cannot change directory to ".spec_bytes() + path,
        StepView::Exec { command, .. } => "failed to execute ".spec_bytes() + command,
    }
}

/// The diagnostic for a failed operation: the operation, and the cause.
pub open spec fn spec_failure_message(step: StepView, cause: Seq<u8>) -> Seq<u8> {
    spec_describe(step) + ": ".spec_bytes() + cause
}

/// What follows the failure of `action` for the reason `cause`. Where
/// `already_exists` says that the failure was "already exists", an action
/// that tolerates this goes on.
pub open spec fn spec_verdict(action: ActionView, cause: Seq<u8>, already_exists: bool)
    -> VerdictView {
    match action.on_failure {
        OnFailure::Abort => VerdictView::Abort {
            message: spec_failure_message(action.step, cause),
        },
        OnFailure::Ignore => VerdictView::Continue,
        OnFailure::IgnoreExisting => if already_exists {
            VerdictView::Continue
        } else {
            VerdictView::Abort { message: spec_failure_message(action.step, cause) }
        },
        OnFailure::Report => VerdictView::Exit {
            exit: ExitView {
                status: FAILURE_STATUS,
                message: spec_failure_message(action.step, cause),
            },
        },
    }
}

/// `words` followed by `path`.
fn words_and_path(words: &str, path: &Vec<u8>) -> (text: Vec<u8>)
    ensures
        text@ == words.spec_bytes() + path@,
{
    let mut text = bytes_of(words);
    let mut rest = copy_bytes(path);
    text.append(&mut rest);
    text
}

/// `words` followed by `first`, `between` and `second`.
fn words_and_two_paths(words: &str, first: &Vec<u8>, between: &str, second: &Vec<u8>) -> (text:
    Vec<u8>)
    ensures
        text@ == words.spec_bytes() + first@ + between.spec_bytes() + second@,
{
    let mut text = words_and_path(words, first);
    let mut rest = words_and_path(between, second);
    text.append(&mut rest);
    assert(text@ =~= words.spec_bytes() + first@ + between.spec_bytes() + second@);
    text
}

/// The operation that failed, in words, with the paths that it was about.
pub fn describe(step: &Step) -> (text: Vec<u8>)
    ensures
        text@ == spec_describe(step@),
{
    match step {
        Step::Unshare { .. } => bytes_of("unshare failed"),
        Step::WriteFile { path, .. } => words_and_path("failed to write ", path),
        Step::Mount { source, target, fstype, flags, .. } => {
            if flags.bind {
                words_and_two_paths("failed to bind mount ", source, " to ", target)
            } else if flags.remount {
                words_and_path("failed to remount ", target)
            } else if flags.private {
                words_and_path("failed to make private ", target)
            } else {
                words_and_two_paths("failed to mount ", fstype, " on ", target)
            }
        },
        Step::SetMode { path, .. } => words_and_path("failed to set the mode of ", path),
        Step::CreateDir { path, .. } => words_and_path("failed to create ", path),
        Step::CreateFile { path } => words_and_path("failed to create ", path),
        Step::Symlink { target, link } => words_and_two_paths(
            "failed to create symlink ",
            link,
            " -> ",
            target,
        ),
        Step::PivotRoot { new_root, .. } => words_and_path("failed to pivot the root to ", new_root),
        Step::DefuseGuard { path } => words_and_path("failed to defuse the guard of ", path),
        Step::ReleaseGuard { path } => words_and_path("failed to unmount ", path),
        Step::ChangeDir { path } => words_and_path("cannot change directory to ", path),
        Step::Exec { command, .. } => words_and_path("failed to execute ", command),
    }
}

/// The diagnostic for the failure of `step` for the reason `cause`.
pub fn failure_message(step: &Step, cause: &Vec<u8>) -> (message: Vec<u8>)
    ensures
        message@ == spec_failure_message(step@, cause@),
{
    let mut message = describe(step);
    let mut rest = words_and_path(": ", cause);
    message.append(&mut rest);
    assert(message@ =~= spec_failure_message(step@, cause@));
    message
}

/// What follows the failure of `action` for the reason `cause`.
pub fn verdict(action: &Action, cause: &Vec<u8>, already_exists: bool) -> (verdict: Verdict)
    ensures
        verdict@ == spec_verdict(action@, cause@, already_exists),
{
    match action.on_failure {
        OnFailure::Abort => Verdict::Abort { message: failure_message(&action.step, cause) },
        OnFailure::Ignore => Verdict::Continue,
        OnFailure::IgnoreExisting => {
            if already_exists {
                Verdict::Continue
            } else {
                Verdict::Abort { message: failure_message(&action.step, cause) }
            }
        },
        OnFailure::Report => Verdict::Exit {
            exit: Exit { status: FAILURE_STATUS, message: failure_message(&action.step, cause) },
        },
    }
}

} // verus!
