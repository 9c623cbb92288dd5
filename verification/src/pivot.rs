//! Swapping the root of the process for a temporary directory.

use vstd::prelude::*;
use crate::layout::{new_root, relocation_name, spec_new_root, spec_relocation_name};
use crate::path::{copy_bytes, join, spec_join};
use crate::plan::{
    plan_view, Action, ActionView, OnFailure, Step, StepView, DIRECTORY_MODE,
};

verus! {

/// The directory of the temporary root that receives the old root.
pub open spec fn spec_old_root_mountpoint(temp_root: Seq<u8>) -> Seq<u8> {
    spec_join(temp_root, spec_relocation_name())
}

/// The root is bind-mounted onto itself, with all below it, and that mount
/// tree is made private. An empty in-memory file system is mounted at
/// `temp_root` and given the mode 0755. The directory for the old root is
/// created in it. The roots are swapped. The guard of `temp_root` is
/// defused, since the mount is the root now. The working directory moves
/// to the new root.
pub open spec fn spec_pivot_root(temp_root: Seq<u8>) -> Seq<ActionView> {
    seq![
        ActionView::bind_mount(spec_new_root(), spec_new_root()),
        ActionView::make_private(spec_new_root()),
        ActionView::mount_tmpfs(temp_root, None),
        ActionView::fatal(StepView::SetMode { path: temp_root, mode: DIRECTORY_MODE }),
        ActionView::fatal(
            StepView::CreateDir { path: spec_old_root_mountpoint(temp_root), parents: false },
        ),
        ActionView::fatal(
            StepView::PivotRoot {
                new_root: temp_root,
                put_old: spec_old_root_mountpoint(temp_root),
            },
        ),
        ActionView::fatal(StepView::DefuseGuard { path: temp_root }),
        ActionView::fatal(StepView::ChangeDir { path: spec_new_root() }),
    ]
}

/// Plans the swap of the root for `temp_root`, a temporary directory under
/// a guard.
pub fn pivot_root(temp_root: &Vec<u8>) -> (plan: Vec<Action>)
    ensures
        plan_view(plan@) == spec_pivot_root(temp_root@),
{
    let root = new_root();
    let put_old = join(temp_root, &relocation_name());
    let mut plan: Vec<Action> = Vec::new();
    plan.push(Action::bind_mount(&root, &root));
    plan.push(Action::make_private(&root));
    plan.push(Action::mount_tmpfs(temp_root, false));
    plan.push(Action::fatal(Step::SetMode { path: copy_bytes(temp_root), mode: DIRECTORY_MODE }));
    plan.push(Action::fatal(Step::CreateDir { path: copy_bytes(&put_old), parents: false }));
    plan.push(Action::fatal(Step::PivotRoot { new_root: copy_bytes(temp_root), put_old }));
    plan.push(Action::fatal(Step::DefuseGuard { path: copy_bytes(temp_root) }));
    plan.push(Action::fatal(Step::ChangeDir { path: root }));
    assert(plan_view(plan@) =~= spec_pivot_root(temp_root@));
    plan
}

/// The hand-over of the temporary root is exact: the root is swapped only
/// after the temporary directory has become a mount of its own; the guard
/// is defused by the very next step, and by no other; and nothing in the
/// plan ends the guard's scope.
pub proof fn lemma_guard_defused_right_after_pivot(temp_root: Seq<u8>)
    ensures
        spec_pivot_root(temp_root).len() == 8,
        spec_pivot_root(temp_root)[2] == ActionView::mount_tmpfs(temp_root, None),
        forall|k: int|
            0 <= k < 8 ==> ((#[trigger] spec_pivot_root(temp_root)[k]).step is PivotRoot <==> k
                == 5),
        forall|k: int|
            0 <= k < 8 ==> ((#[trigger] spec_pivot_root(temp_root)[k]).step is DefuseGuard <==> k
                == 6),
        spec_pivot_root(temp_root)[5].step == (StepView::PivotRoot {
            new_root: temp_root,
            put_old: spec_old_root_mountpoint(temp_root),
        }),
        spec_pivot_root(temp_root)[6].step == (StepView::DefuseGuard { path: temp_root }),
        forall|k: int|
            0 <= k < 8 ==> !((#[trigger] spec_pivot_root(temp_root)[k]).step is ReleaseGuard),
        forall|k: int|
            0 <= k < 8 ==> (#[trigger] spec_pivot_root(temp_root)[k]).on_failure
                == OnFailure::Abort,
{
}

} // verus!
