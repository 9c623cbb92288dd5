//! What a run does to the guards of its temporary mounts.
//!
//! A plan defuses and releases guards by steps of its own. Followed through
//! a plan, a guard unmounts at most once; over a complete setup the guard
//! of the temporary root never unmounts, because the pivot has taken its
//! mount, and the guard of the stash unmounts exactly once.

use vstd::prelude::*;
use crate::entry::{EntryView, ListingView};
use crate::guard::GuardView;
use crate::launch::spec_launch;
use crate::layout::{spec_relocated_root, spec_store_path};
use crate::mirror::{
    spec_bind_mount_direntry, spec_mirror_tree, spec_recreate, spec_recreate_all,
};
use crate::namespace::spec_enter_namespace;
use crate::pivot::spec_pivot_root;
use crate::plan::{ActionView, StepView};
use crate::setup::{spec_advance, ObservationView, SetupView, Stage};
use crate::store::{spec_direct_store, spec_merge, spec_stash_outer_store, spec_union_store};

verus! {

/// The guard after one step: a step that defuses or releases the guard's
/// path disarms it; any other step leaves it as it is.
pub open spec fn spec_guard_after_step(guard: GuardView, step: StepView) -> GuardView {
    match step {
        StepView::DefuseGuard { path } => if path == guard.path {
            guard.defused()
        } else {
            guard
        },
        StepView::ReleaseGuard { path } => if path == guard.path {
            guard.released()
        } else {
            guard
        },
        _ => guard,
    }
}

/// The unmounts of one step on the guard: one where the step releases the
/// guard's path while the guard is armed, none otherwise.
pub open spec fn spec_unmounts_of_step(guard: GuardView, step: StepView) -> nat {
    match step {
        StepView::ReleaseGuard { path } => if path == guard.path
            && guard.unmount_on_release() is Some {
            1
        } else {
            0
        },
        _ => 0,
    }
}

/// The guard after the steps of `plan`.
pub open spec fn spec_guard_after(guard: GuardView, plan: Seq<ActionView>) -> GuardView
    decreases plan.len(),
{
    if plan.len() == 0 {
        guard
    } else {
        spec_guard_after_step(spec_guard_after(guard, plan.drop_last()), plan.last().step)
    }
}

/// The number of unmounts that the steps of `plan` make on the guard.
pub open spec fn spec_unmounts_in(guard: GuardView, plan: Seq<ActionView>) -> nat
    decreases plan.len(),
{
    if plan.len() == 0 {
        0
    } else {
        spec_unmounts_in(guard, plan.drop_last()) + spec_unmounts_of_step(
            spec_guard_after(guard, plan.drop_last()),
            plan.last().step,
        )
    }
}

/// Whether a step of `plan` defuses the path `path`.
pub open spec fn spec_defuses(plan: Seq<ActionView>, path: Seq<u8>) -> bool {
    exists|k: int|
        0 <= k < plan.len() && (#[trigger] plan[k]).step == (StepView::DefuseGuard { path })
}

/// Whether a step of `plan` defuses or releases a guard.
pub open spec fn spec_touches_guards(plan: Seq<ActionView>) -> bool {
    exists|k: int|
        0 <= k < plan.len() && ((#[trigger] plan[k]).step is DefuseGuard
            || plan[k].step is ReleaseGuard)
}

/// Followed through any plan and then to the end of its scope, a guard
/// unmounts at most once. A guard that is armed and never defused unmounts
/// exactly once; a guard that is not armed never unmounts.
pub proof fn lemma_guard_over_plan(guard: GuardView, plan: Seq<ActionView>)
    ensures
        spec_guard_after(guard, plan).path == guard.path,
        spec_guard_after(guard, plan).active ==> guard.active && spec_unmounts_in(guard, plan)
            == 0,
        spec_unmounts_in(guard, plan) + (if spec_guard_after(guard, plan).unmount_on_release()
            is Some {
            1nat
        } else {
            0nat
        }) <= 1,
        guard.active && !spec_defuses(plan, guard.path) ==> spec_unmounts_in(guard, plan) + (
        if spec_guard_after(guard, plan).unmount_on_release() is Some {
            1nat
        } else {
            0nat
        }) == 1,
        !guard.active ==> spec_unmounts_in(guard, plan) == 0 && !spec_guard_after(
            guard,
            plan,
        ).active,
    decreases plan.len(),
{
    if plan.len() > 0 {
        let front = plan.drop_last();
        lemma_guard_over_plan(guard, front);
        if spec_defuses(front, guard.path) {
            let k = choose|k: int|
                0 <= k < front.len() && (#[trigger] front[k]).step == (StepView::DefuseGuard {
                    path: guard.path,
                });
            assert(plan[k] == front[k]);
        }
        if plan.last().step == (StepView::DefuseGuard { path: guard.path }) {
            assert(plan[plan.len() - 1].step == (StepView::DefuseGuard { path: guard.path }));
        }
    }
}

/// A plan in two parts acts on a guard as the first part does, followed by
/// the second.
pub proof fn lemma_guard_over_parts(
    guard: GuardView,
    first: Seq<ActionView>,
    second: Seq<ActionView>,
)
    ensures
        spec_guard_after(guard, first + second) == spec_guard_after(
            spec_guard_after(guard, first),
            second,
        ),
        spec_unmounts_in(guard, first + second) == spec_unmounts_in(guard, first)
            + spec_unmounts_in(spec_guard_after(guard, first), second),
    decreases second.len(),
{
    if second.len() == 0 {
        assert(first + second =~= first);
    } else {
        lemma_guard_over_parts(guard, first, second.drop_last());
        assert((first + second).drop_last() =~= first + second.drop_last());
        assert((first + second).last() == second.last());
    }
}

/// A plan without a step on guards leaves every guard as it is.
pub proof fn lemma_guard_untouched(guard: GuardView, plan: Seq<ActionView>)
    requires
        !spec_touches_guards(plan),
    ensures
        spec_guard_after(guard, plan) == guard,
        spec_unmounts_in(guard, plan) == 0,
    decreases plan.len(),
{
    if plan.len() > 0 {
        let front = plan.drop_last();
        assert(!spec_touches_guards(front)) by {
            if spec_touches_guards(front) {
                let k = choose|k: int|
                    0 <= k < front.len() && ((#[trigger] front[k]).step is DefuseGuard
                        || front[k].step is ReleaseGuard);
                assert(plan[k] == front[k]);
            }
        }
        lemma_guard_untouched(guard, front);
        assert(plan[plan.len() - 1] == plan.last());
    }
}

/// Recreating entries takes no step on guards.
pub proof fn lemma_recreate_all_untouched(entries: Seq<EntryView>, dir: Seq<u8>, existing_ok: bool)
    ensures
        !spec_touches_guards(spec_recreate_all(entries, dir, existing_ok)),
    decreases entries.len(),
{
    if entries.len() > 0 {
        lemma_recreate_all_untouched(entries.drop_last(), dir, existing_ok);
        let head = spec_recreate_all(entries.drop_last(), dir, existing_ok);
        let tail = spec_recreate(entries.last(), dir, existing_ok);
        let plan = spec_recreate_all(entries, dir, existing_ok);
        if spec_touches_guards(plan) {
            let k = choose|k: int|
                0 <= k < plan.len() && ((#[trigger] plan[k]).step is DefuseGuard
                    || plan[k].step is ReleaseGuard);
            if k < head.len() {
                assert(head[k] == plan[k]);
            } else {
                assert(tail[k - head.len()] == plan[k]);
            }
        }
    }
}

/// Mirroring the tree takes no step on guards.
pub proof fn lemma_mirror_tree_untouched(entries: Seq<EntryView>)
    ensures
        !spec_touches_guards(spec_mirror_tree(entries)),
    decreases entries.len(),
{
    if entries.len() > 0 {
        lemma_mirror_tree_untouched(entries.drop_last());
        let head = spec_mirror_tree(entries.drop_last());
        let tail = spec_bind_mount_direntry(entries.last());
        let plan = spec_mirror_tree(entries);
        if spec_touches_guards(plan) {
            let k = choose|k: int|
                0 <= k < plan.len() && ((#[trigger] plan[k]).step is DefuseGuard
                    || plan[k].step is ReleaseGuard);
            if k < head.len() {
                assert(head[k] == plan[k]);
            } else {
                assert(tail[k - head.len()] == plan[k]);
            }
        }
    }
}

/// All that a setup without an outer store asks for, from its start to the
/// hand-over, where the relocated old root holds `root`.
pub open spec fn spec_run_direct(setup: SetupView, root: Seq<EntryView>) -> Seq<ActionView> {
    spec_enter_namespace(setup.mapping) + spec_pivot_root(setup.temp_root) + spec_mirror_tree(
        root,
    ).push(ActionView::fatal(StepView::ReleaseGuard { path: setup.temp_root }))
        + spec_direct_store(setup.store_source) + spec_launch(
        setup.cwd,
        setup.command,
        setup.args,
    )
}

/// All that a setup with an outer store asks for, from its start to the
/// hand-over, where the relocated old root holds `root`, the supplied
/// store `supplied` and the stash `outer`.
pub open spec fn spec_run_union(
    setup: SetupView,
    root: Seq<EntryView>,
    stash: Seq<u8>,
    supplied: Seq<EntryView>,
    outer: Seq<EntryView>,
) -> Seq<ActionView> {
    spec_enter_namespace(setup.mapping) + spec_pivot_root(setup.temp_root) + spec_mirror_tree(
        root,
    ).push(ActionView::fatal(StepView::ReleaseGuard { path: setup.temp_root }))
        + spec_stash_outer_store(stash) + spec_union_store(supplied, outer, stash) + spec_launch(
        setup.cwd,
        setup.command,
        setup.args,
    )
}

/// One more stage after the stages taken so far: the setup moves on, and
/// the plan of the stage follows the plans before it. Nothing comes of it
/// where a stage was not taken.
pub open spec fn spec_then(
    taken: Option<(SetupView, Seq<ActionView>)>,
    seen: ObservationView,
) -> Option<(SetupView, Seq<ActionView>)> {
    match taken {
        Some((setup, plan)) => match spec_advance(setup, seen) {
            Some((next, more)) => Some((next, plan + more)),
            None => None,
        },
        None => None,
    }
}

/// A setup without an outer store takes four stages, and their plans, one
/// after the other, are the run.
pub proof fn lemma_stages_of_run_direct(setup: SetupView, root: ListingView)
    requires
        setup.stage == Stage::Start,
        root.dir == spec_relocated_root(),
    ensures
        spec_then(
            spec_then(
                spec_then(
                    spec_advance(setup, ObservationView::Nothing),
                    ObservationView::RootEntries { listing: root },
                ),
                ObservationView::NoOuterStore,
            ),
            ObservationView::Nothing,
        ) == Some((setup.at(Stage::Launched), spec_run_direct(setup, root.entries))),
{
}

/// A setup with an outer store takes five stages, and their plans, one
/// after the other, are the run.
pub proof fn lemma_stages_of_run_union(
    setup: SetupView,
    root: ListingView,
    stash: Seq<u8>,
    supplied: ListingView,
    outer: ListingView,
)
    requires
        setup.stage == Stage::Start,
        root.dir == spec_relocated_root(),
        supplied.dir == setup.store_source,
        outer.dir == stash,
    ensures
        spec_then(
            spec_then(
                spec_then(
                    spec_then(
                        spec_advance(setup, ObservationView::Nothing),
                        ObservationView::RootEntries { listing: root },
                    ),
                    ObservationView::OuterStore { stash },
                ),
                ObservationView::StoreEntries { supplied, outer },
            ),
            ObservationView::Nothing,
        ) == Some(
            (
                SetupView { stage: Stage::Launched, stash: Some(stash), ..setup },
                spec_run_union(setup, root.entries, stash, supplied.entries, outer.entries),
            ),
        ),
{
}

/// The pivot defuses the guard of the temporary root, touches no other
/// guard, and unmounts nothing.
proof fn lemma_pivot_on_guard(guard: GuardView, temp_root: Seq<u8>)
    ensures
        spec_guard_after(guard, spec_pivot_root(temp_root)) == if guard.path == temp_root {
            guard.defused()
        } else {
            guard
        },
        spec_unmounts_in(guard, spec_pivot_root(temp_root)) == 0,
{
    reveal_with_fuel(spec_guard_after, 3);
    reveal_with_fuel(spec_unmounts_in, 3);
    let pivot = spec_pivot_root(temp_root);
    let before = pivot.take(6);
    assert(!spec_touches_guards(before));
    lemma_guard_untouched(guard, before);
    assert(pivot.drop_last().drop_last() =~= before);
    assert(pivot.drop_last().last() == pivot[6]);
    assert(pivot.last() == pivot[7]);
}

/// The end of the scope of one guard, as a plan of its own.
proof fn lemma_release_on_guard(guard: GuardView, path: Seq<u8>)
    ensures
        spec_guard_after(
            guard,
            seq![ActionView::fatal(StepView::ReleaseGuard { path })],
        ) == if guard.path == path {
            guard.released()
        } else {
            guard
        },
        spec_unmounts_in(guard, seq![ActionView::fatal(StepView::ReleaseGuard { path })]) == if guard.path
            == path && guard.active {
            1nat
        } else {
            0nat
        },
{
    reveal_with_fuel(spec_guard_after, 3);
    reveal_with_fuel(spec_unmounts_in, 3);
    let plan = seq![ActionView::fatal(StepView::ReleaseGuard { path })];
    assert(plan.drop_last() =~= Seq::<ActionView>::empty());
    assert(plan.last() == plan[0]);
}

/// The stages up to the mirrored tree defuse the guard of the temporary
/// root and end its scope without an unmount; they touch no other guard.
proof fn lemma_head_on_guard(guard: GuardView, setup: SetupView, root: Seq<EntryView>)
    ensures
        ({
            let plan = spec_enter_namespace(setup.mapping) + spec_pivot_root(setup.temp_root)
                + spec_mirror_tree(root).push(
                ActionView::fatal(StepView::ReleaseGuard { path: setup.temp_root }),
            );
            &&& spec_unmounts_in(guard, plan) == 0
            &&& spec_guard_after(guard, plan) == if guard.path == setup.temp_root {
                guard.defused()
            } else {
                guard
            }
        }),
{
    let enter = spec_enter_namespace(setup.mapping);
    let pivot = spec_pivot_root(setup.temp_root);
    let mirror = spec_mirror_tree(root);
    let release = seq![ActionView::fatal(StepView::ReleaseGuard { path: setup.temp_root })];
    let pivoted = if guard.path == setup.temp_root {
        guard.defused()
    } else {
        guard
    };
    assert(!spec_touches_guards(enter));
    lemma_guard_untouched(guard, enter);
    lemma_pivot_on_guard(guard, setup.temp_root);
    lemma_guard_over_parts(guard, enter, pivot);
    lemma_mirror_tree_untouched(root);
    lemma_guard_untouched(pivoted, mirror);
    lemma_guard_over_parts(guard, enter + pivot, mirror);
    lemma_release_on_guard(pivoted, setup.temp_root);
    lemma_guard_over_parts(guard, enter + pivot + mirror, release);
    assert(mirror.push(release[0]) =~= mirror + release);
    assert(enter + pivot + mirror.push(release[0]) =~= enter + pivot + mirror + release);
}

/// The union ends the scope of the guard of the stash, with an unmount if
/// the guard is armed, and touches no other guard.
proof fn lemma_union_on_guard(
    guard: GuardView,
    supplied: Seq<EntryView>,
    outer: Seq<EntryView>,
    stash: Seq<u8>,
)
    ensures
        spec_guard_after(guard, spec_union_store(supplied, outer, stash)) == if guard.path
            == stash {
            guard.released()
        } else {
            guard
        },
        spec_unmounts_in(guard, spec_union_store(supplied, outer, stash)) == if guard.path == stash
            && guard.active {
            1nat
        } else {
            0nat
        },
{
    let store = spec_store_path();
    let union = spec_union_store(supplied, outer, stash);
    let placed = spec_recreate_all(spec_merge(supplied, outer), store, false);
    let remount = seq![ActionView::remount_read_only(store)];
    let release = seq![ActionView::fatal(StepView::ReleaseGuard { path: stash })];
    lemma_recreate_all_untouched(spec_merge(supplied, outer), store, false);
    lemma_guard_untouched(guard, placed);
    assert(!spec_touches_guards(remount));
    lemma_guard_untouched(guard, remount);
    lemma_release_on_guard(guard, stash);
    lemma_guard_over_parts(guard, placed, remount);
    lemma_guard_over_parts(guard, placed + remount, release);
    assert(union =~= placed + remount + release);
}

/// Over a complete setup without an outer store the guard of the temporary
/// root never unmounts, and its scope has ended.
pub proof fn lemma_run_direct_leaves_no_guard(setup: SetupView, root: Seq<EntryView>)
    ensures
        spec_unmounts_in(
            GuardView { path: setup.temp_root, active: true },
            spec_run_direct(setup, root),
        ) == 0,
        !spec_guard_after(
            GuardView { path: setup.temp_root, active: true },
            spec_run_direct(setup, root),
        ).active,
{
    let guard = GuardView { path: setup.temp_root, active: true };
    let head = spec_enter_namespace(setup.mapping) + spec_pivot_root(setup.temp_root)
        + spec_mirror_tree(root).push(
        ActionView::fatal(StepView::ReleaseGuard { path: setup.temp_root }),
    );
    let rest = spec_direct_store(setup.store_source) + spec_launch(
        setup.cwd,
        setup.command,
        setup.args,
    );
    lemma_head_on_guard(guard, setup, root);
    lemma_guard_over_plan(guard.defused(), rest);
    lemma_guard_over_parts(guard, head, rest);
    assert(spec_run_direct(setup, root) =~= head + rest);
}

/// Over a complete setup with an outer store the guard of the temporary
/// root never unmounts, the guard of the stash unmounts exactly once, and
/// the scope of both has ended.
pub proof fn lemma_run_union_unmounts_stash_once(
    setup: SetupView,
    root: Seq<EntryView>,
    stash: Seq<u8>,
    supplied: Seq<EntryView>,
    outer: Seq<EntryView>,
)
    requires
        stash != setup.temp_root,
    ensures
        ({
            let run = spec_run_union(setup, root, stash, supplied, outer);
            let root_guard = GuardView { path: setup.temp_root, active: true };
            let stash_guard = GuardView { path: stash, active: true };
            &&& spec_unmounts_in(root_guard, run) == 0
            &&& !spec_guard_after(root_guard, run).active
            &&& spec_unmounts_in(stash_guard, run) == 1
            &&& !spec_guard_after(stash_guard, run).active
        }),
{
    let run = spec_run_union(setup, root, stash, supplied, outer);
    let root_guard = GuardView { path: setup.temp_root, active: true };
    let stash_guard = GuardView { path: stash, active: true };
    let head = spec_enter_namespace(setup.mapping) + spec_pivot_root(setup.temp_root)
        + spec_mirror_tree(root).push(
        ActionView::fatal(StepView::ReleaseGuard { path: setup.temp_root }),
    );
    let stashing = spec_stash_outer_store(stash);
    let union = spec_union_store(supplied, outer, stash);
    let launch = spec_launch(setup.cwd, setup.command, setup.args);
    let rest = stashing + union + launch;
    assert(run =~= head + rest);

    lemma_head_on_guard(root_guard, setup, root);
    lemma_guard_over_plan(root_guard.defused(), rest);
    lemma_guard_over_parts(root_guard, head, rest);

    lemma_head_on_guard(stash_guard, setup, root);
    assert(!spec_touches_guards(stashing));
    lemma_guard_untouched(stash_guard, stashing);
    lemma_union_on_guard(stash_guard, supplied, outer, stash);
    assert(!spec_touches_guards(launch));
    lemma_guard_untouched(stash_guard.released(), launch);
    lemma_guard_over_parts(stash_guard, stashing, union);
    lemma_guard_over_parts(stash_guard, stashing + union, launch);
    lemma_guard_over_parts(stash_guard, head, rest);
}

} // verus!
