//! Entering the new user and mount namespace.

use vstd::prelude::*;
use vstd::string::is_ascii_spec_bytes;
use crate::flags::NamespaceFlags;
use crate::identity::{spec_identity_line, NamespaceIdentityMapping};
use crate::layout::{
    spec_gid_map_file, spec_setgroups_deny, spec_setgroups_file, spec_uid_map_file,
};
use crate::path::bytes_of;
use crate::plan::{plan_view, Action, ActionView, OnFailure, Step, StepView};

verus! {

/// The user and the mount namespace are left in one call. The setting of
/// groups is switched off on a best effort. Then the user id map and the
/// group id map are written, each with the one range that maps the
/// caller's id to itself.
pub open spec fn spec_enter_namespace(mapping: NamespaceIdentityMapping) -> Seq<ActionView> {
    seq![
        ActionView::fatal(StepView::Unshare { namespaces: NamespaceFlags::spec_user_and_mount() }),
        ActionView {
            step: StepView::WriteFile {
                path: spec_setgroups_file(),
                content: spec_setgroups_deny(),
            },
            on_failure: OnFailure::Ignore,
        },
        ActionView::fatal(
            StepView::WriteFile { path: spec_uid_map_file(), content: mapping.spec_uid_map() },
        ),
        ActionView::fatal(
            StepView::WriteFile { path: spec_gid_map_file(), content: mapping.spec_gid_map() },
        ),
    ]
}

/// Plans the entry into the new namespace for a caller with the identity
/// `mapping`.
pub fn enter_namespace(mapping: &NamespaceIdentityMapping) -> (plan: Vec<Action>)
    ensures
        plan_view(plan@) == spec_enter_namespace(*mapping),
{
    let mut plan: Vec<Action> = Vec::new();
    plan.push(Action::fatal(Step::Unshare { namespaces: NamespaceFlags::user_and_mount() }));
    plan.push(
        Action {
            step: Step::WriteFile {
                path: bytes_of("/proc/self/setgroups"),
                content: bytes_of("deny"),
            },
            on_failure: OnFailure::Ignore,
        },
    );
    plan.push(
        Action::fatal(
            Step::WriteFile { path: bytes_of("/proc/self/uid_map"), content: mapping.uid_map() },
        ),
    );
    plan.push(
        Action::fatal(
            Step::WriteFile { path: bytes_of("/proc/self/gid_map"), content: mapping.gid_map() },
        ),
    );
    assert(plan_view(plan@) =~= spec_enter_namespace(*mapping));
    plan
}

/// The order of the entry is fixed: both namespaces are left by the first
/// step, in one call; the setting of groups is switched off before the
/// group id map is written, and only that step may fail without ending
/// the process; and each map gets one write, of one range of length 1.
pub proof fn lemma_groups_denied_before_gid_map(mapping: NamespaceIdentityMapping)
    ensures
        spec_enter_namespace(mapping).len() == 4,
        spec_enter_namespace(mapping)[0].step == (StepView::Unshare {
            namespaces: NamespaceFlags { mount: true, user: true },
        }),
        forall|k: int|
            0 <= k < 4 ==> (((#[trigger] spec_enter_namespace(mapping)[k]).step matches StepView::WriteFile {
                path,
                ..
            } && path == spec_setgroups_file()) <==> k == 1),
        forall|k: int|
            0 <= k < 4 ==> (((#[trigger] spec_enter_namespace(mapping)[k]).step matches StepView::WriteFile {
                path,
                ..
            } && path == spec_uid_map_file()) <==> k == 2),
        forall|k: int|
            0 <= k < 4 ==> (((#[trigger] spec_enter_namespace(mapping)[k]).step matches StepView::WriteFile {
                path,
                ..
            } && path == spec_gid_map_file()) <==> k == 3),
        forall|k: int|
            0 <= k < 4 ==> ((#[trigger] spec_enter_namespace(mapping)[k]).on_failure
                != OnFailure::Abort <==> k == 1),
        spec_enter_namespace(mapping)[2].step == (StepView::WriteFile {
            path: spec_uid_map_file(),
            content: spec_identity_line(mapping.uid),
        }),
        spec_enter_namespace(mapping)[3].step == (StepView::WriteFile {
            path: spec_gid_map_file(),
            content: spec_identity_line(mapping.gid),
        }),
{
    reveal_strlit("/proc/self/setgroups");
    reveal_strlit("/proc/self/uid_map");
    reveal_strlit("/proc/self/gid_map");
    is_ascii_spec_bytes("/proc/self/setgroups");
    is_ascii_spec_bytes("/proc/self/uid_map");
    is_ascii_spec_bytes("/proc/self/gid_map");
    assert(spec_setgroups_file().len() == 20);
    assert(spec_uid_map_file().len() == 18);
    assert(spec_gid_map_file().len() == 18);
    assert(spec_uid_map_file()[11] == 117);
    assert(spec_gid_map_file()[11] == 103);
}

} // verus!
