//! Recreating the entries of one directory in another: directories and
//! regular files by bind mounts, symbolic links by value.

use vstd::prelude::*;
use crate::entry::{entries_view, DirEntryDescriptor, DirListing, EntryKind, EntryView};
use crate::layout::{
    is_relocation_name, lemma_layout_spelled_out, new_root, spec_new_root, spec_relocated_root,
    spec_relocation_name,
};
use crate::path::{copy_bytes, join, lemma_join_injective, spec_join};
use crate::plan::{append_plan, plan_view, Action, ActionView, OnFailure, Step, StepView};

verus! {

/// How the failure to create a directory is treated: where an existing
/// directory is in order, only that failure is passed over.
pub open spec fn spec_directory_failure(existing_ok: bool) -> OnFailure {
    if existing_ok {
        OnFailure::IgnoreExisting
    } else {
        OnFailure::Abort
    }
}

/// A directory of the entry's name is created in `dir`, and the entry is
/// bind-mounted over it with all below it.
pub open spec fn spec_bind_mount_directory(
    entry: EntryView,
    dir: Seq<u8>,
    existing_ok: bool,
) -> Seq<ActionView> {
    seq![
        ActionView {
            step: StepView::CreateDir { path: spec_join(dir, entry.name), parents: false },
            on_failure: spec_directory_failure(existing_ok),
        },
        ActionView::bind_mount(entry.source, spec_join(dir, entry.name)),
    ]
}

/// An empty file of the entry's name is created in `dir`, and the entry is
/// bind-mounted over it.
pub open spec fn spec_bind_mount_file(entry: EntryView, dir: Seq<u8>) -> Seq<ActionView> {
    seq![
        ActionView::fatal(StepView::CreateFile { path: spec_join(dir, entry.name) }),
        ActionView::bind_mount(entry.source, spec_join(dir, entry.name)),
    ]
}

/// A symbolic link of the entry's name and with the entry's target is
/// created in `dir`. An entry without a target leaves nothing to do.
pub open spec fn spec_mirror_symlink(entry: EntryView, dir: Seq<u8>) -> Seq<ActionView> {
    match entry.link_target {
        Some(target) => seq![
            ActionView::fatal(StepView::Symlink { target, link: spec_join(dir, entry.name) }),
        ],
        None => Seq::empty(),
    }
}

/// The entry is recreated in `dir`, in the way of its kind.
pub open spec fn spec_recreate(entry: EntryView, dir: Seq<u8>, existing_ok: bool) -> Seq<
    ActionView,
> {
    match entry.kind {
        EntryKind::Directory => spec_bind_mount_directory(entry, dir, existing_ok),
        EntryKind::RegularFile => spec_bind_mount_file(entry, dir),
        EntryKind::Symlink => spec_mirror_symlink(entry, dir),
    }
}

/// The entries are recreated in `dir`, one after the other.
pub open spec fn spec_recreate_all(entries: Seq<EntryView>, dir: Seq<u8>, existing_ok: bool) -> Seq<
    ActionView,
>
    decreases entries.len(),
{
    if entries.len() == 0 {
        Seq::empty()
    } else {
        spec_recreate_all(entries.drop_last(), dir, existing_ok) + spec_recreate(
            entries.last(),
            dir,
            existing_ok,
        )
    }
}

/// An entry of the old root is recreated in the new root, where an
/// existing directory is in order. The entry of the relocation name is the
/// gateway to the old root and is left out.
pub open spec fn spec_bind_mount_direntry(entry: EntryView) -> Seq<ActionView> {
    if entry.name == spec_relocation_name() {
        Seq::empty()
    } else {
        spec_recreate(entry, spec_new_root(), true)
    }
}

/// The entries of the old root are recreated in the new root, one after
/// the other.
pub open spec fn spec_mirror_tree(entries: Seq<EntryView>) -> Seq<ActionView>
    decreases entries.len(),
{
    if entries.len() == 0 {
        Seq::empty()
    } else {
        spec_mirror_tree(entries.drop_last()) + spec_bind_mount_direntry(entries.last())
    }
}

/// Plans a directory of the entry's name in `dir` with the entry
/// bind-mounted over it. With `existing_ok` a directory that is there
/// already is in order.
pub fn bind_mount_directory(entry: &DirEntryDescriptor, dir: &Vec<u8>, existing_ok: bool) -> (plan:
    Vec<Action>)
    ensures
        plan_view(plan@) == spec_bind_mount_directory(entry@, dir@, existing_ok),
{
    let mountpoint = join(dir, entry.name());
    let mount = Action::bind_mount(entry.source_path(), &mountpoint);
    let on_failure = if existing_ok {
        OnFailure::IgnoreExisting
    } else {
        OnFailure::Abort
    };
    let create = Action { step: Step::CreateDir { path: mountpoint, parents: false }, on_failure };
    let mut plan: Vec<Action> = Vec::new();
    plan.push(create);
    plan.push(mount);
    assert(plan_view(plan@) =~= spec_bind_mount_directory(entry@, dir@, existing_ok));
    plan
}

/// Plans an empty file of the entry's name in `dir` with the entry
/// bind-mounted over it.
pub fn bind_mount_file(entry: &DirEntryDescriptor, dir: &Vec<u8>) -> (plan: Vec<Action>)
    ensures
        plan_view(plan@) == spec_bind_mount_file(entry@, dir@),
{
    let mountpoint = join(dir, entry.name());
    let mount = Action::bind_mount(entry.source_path(), &mountpoint);
    let create = Action::fatal(Step::CreateFile { path: mountpoint });
    let mut plan: Vec<Action> = Vec::new();
    plan.push(create);
    plan.push(mount);
    assert(plan_view(plan@) =~= spec_bind_mount_file(entry@, dir@));
    plan
}

/// Plans a symbolic link of the entry's name in `dir` that points where
/// the entry points.
pub fn mirror_symlink(entry: &DirEntryDescriptor, dir: &Vec<u8>) -> (plan: Vec<Action>)
    ensures
        plan_view(plan@) == spec_mirror_symlink(entry@, dir@),
{
    let mut plan: Vec<Action> = Vec::new();
    match entry.link_target() {
        Some(target) => {
            let link = join(dir, entry.name());
            let target = copy_bytes(target);
            plan.push(Action::fatal(Step::Symlink { target, link }));
        },
        None => {},
    }
    assert(plan_view(plan@) =~= spec_mirror_symlink(entry@, dir@));
    plan
}

/// Plans the entry in `dir`, in the way of its kind.
pub fn recreate(entry: &DirEntryDescriptor, dir: &Vec<u8>, existing_ok: bool) -> (plan: Vec<Action>)
    ensures
        plan_view(plan@) == spec_recreate(entry@, dir@, existing_ok),
{
    match entry.kind() {
        EntryKind::Directory => bind_mount_directory(entry, dir, existing_ok),
        EntryKind::RegularFile => bind_mount_file(entry, dir),
        EntryKind::Symlink => mirror_symlink(entry, dir),
    }
}

/// Plans the entries of `entries` in `dir`, one after the other.
pub fn recreate_all(entries: &Vec<DirEntryDescriptor>, dir: &Vec<u8>, existing_ok: bool) -> (plan:
    Vec<Action>)
    ensures
        plan_view(plan@) == spec_recreate_all(entries_view(entries@), dir@, existing_ok),
{
    let ghost all = entries_view(entries@);
    let mut plan: Vec<Action> = Vec::new();
    let mut i: usize = 0;
    assert(plan_view(plan@) =~= Seq::<ActionView>::empty());
    assert(all.take(0) =~= Seq::<EntryView>::empty());
    while i < entries.len()
        invariant
            all == entries_view(entries@),
            i <= entries@.len(),
            plan_view(plan@) == spec_recreate_all(all.take(i as int), dir@, existing_ok),
        decreases entries@.len() - i,
    {
        let part = recreate(&entries[i], dir, existing_ok);
        append_plan(&mut plan, part);
        assert(all.take(i + 1).drop_last() =~= all.take(i as int));
        assert(all.take(i + 1).last() == entries@[i as int]@);
        i += 1;
    }
    assert(all.take(i as int) =~= all);
    plan
}

/// Plans one entry of the old root in the new root. The entry of the
/// relocation name is left out.
pub fn bind_mount_direntry(entry: &DirEntryDescriptor) -> (plan: Vec<Action>)
    ensures
        plan_view(plan@) == spec_bind_mount_direntry(entry@),
{
    if is_relocation_name(entry.name()) {
        let plan: Vec<Action> = Vec::new();
        assert(plan_view(plan@) =~= Seq::<ActionView>::empty());
        plan
    } else {
        recreate(entry, &new_root(), true)
    }
}

/// Plans the entries of the old root in the new root, one after the other.
pub fn mirror_tree(listing: &DirListing) -> (plan: Vec<Action>)
    ensures
        plan_view(plan@) == spec_mirror_tree(listing@.entries),
{
    let entries = listing.entries();
    let ghost all = entries_view(entries@);
    let mut plan: Vec<Action> = Vec::new();
    let mut i: usize = 0;
    assert(plan_view(plan@) =~= Seq::<ActionView>::empty());
    assert(all.take(0) =~= Seq::<EntryView>::empty());
    while i < entries.len()
        invariant
            all == entries_view(entries@),
            i <= entries@.len(),
            plan_view(plan@) == spec_mirror_tree(all.take(i as int)),
        decreases entries@.len() - i,
    {
        let part = bind_mount_direntry(&entries[i]);
        append_plan(&mut plan, part);
        assert(all.take(i + 1).drop_last() =~= all.take(i as int));
        assert(all.take(i + 1).last() == entries@[i as int]@);
        i += 1;
    }
    assert(all.take(i as int) =~= all);
    plan
}

/// Whatever recreates an entry in a directory puts something at the
/// entry's name in that directory, and nowhere else.
pub proof fn lemma_recreate_places_entry(entry: EntryView, dir: Seq<u8>, existing_ok: bool)
    requires
        entry.wf(),
    ensures
        spec_recreate(entry, dir, existing_ok).len() >= 1,
        forall|k: int|
            0 <= k < spec_recreate(entry, dir, existing_ok).len() ==> (#[trigger] spec_recreate(
                entry,
                dir,
                existing_ok,
            )[k]).step.placed_path() == Some(spec_join(dir, entry.name)),
{
}

/// The relocation name is never an entry of the new root: nothing that
/// the mirroring plans is put at the path of the relocated old root.
pub proof fn lemma_relocation_name_not_mirrored(entries: Seq<EntryView>)
    requires
        forall|i: int| 0 <= i < entries.len() ==> (#[trigger] entries[i]).wf(),
    ensures
        forall|k: int|
            0 <= k < spec_mirror_tree(entries).len() ==> (#[trigger] spec_mirror_tree(
                entries,
            )[k]).step.placed_path() != Some(spec_relocated_root()),
    decreases entries.len(),
{
    if entries.len() > 0 {
        let front = entries.drop_last();
        let last = entries.last();
        assert forall|i: int| 0 <= i < front.len() implies (#[trigger] front[i]).wf() by {
            assert(entries[i].wf());
        }
        lemma_relocation_name_not_mirrored(front);
        let head = spec_mirror_tree(front);
        let tail = spec_bind_mount_direntry(last);
        assert(last.wf());
        assert forall|k: int| 0 <= k < spec_mirror_tree(entries).len() implies (
        #[trigger] spec_mirror_tree(entries)[k]).step.placed_path() != Some(
            spec_relocated_root(),
        ) by {
            if k < head.len() {
                assert(spec_mirror_tree(entries)[k] == head[k]);
            } else {
                assert(spec_mirror_tree(entries)[k] == tail[k - head.len()]);
                lemma_recreate_places_entry(last, spec_new_root(), true);
                lemma_layout_spelled_out();
                if spec_join(spec_new_root(), last.name) == spec_relocated_root() {
                    lemma_join_injective(spec_new_root(), last.name, spec_relocation_name());
                }
            }
        }
    }
}

/// Every other entry of the old root is mirrored: for each entry but
/// that of the relocation name, the plan puts something at the entry's
/// name in the new root.
pub proof fn lemma_other_entries_mirrored(entries: Seq<EntryView>, i: int)
    requires
        0 <= i < entries.len(),
        entries[i].wf(),
        entries[i].name != spec_relocation_name(),
    ensures
        exists|k: int|
            0 <= k < spec_mirror_tree(entries).len() && (#[trigger] spec_mirror_tree(
                entries,
            )[k]).step.placed_path() == Some(spec_join(spec_new_root(), entries[i].name)),
    decreases entries.len(),
{
    let front = entries.drop_last();
    let head = spec_mirror_tree(front);
    let tail = spec_bind_mount_direntry(entries.last());
    if i < entries.len() - 1 {
        assert(front[i] == entries[i]);
        lemma_other_entries_mirrored(front, i);
        let k = choose|k: int|
            0 <= k < head.len() && (#[trigger] head[k]).step.placed_path() == Some(
                spec_join(spec_new_root(), entries[i].name),
            );
        assert(spec_mirror_tree(entries)[k] == head[k]);
    } else {
        lemma_recreate_places_entry(entries[i], spec_new_root(), true);
        assert(spec_mirror_tree(entries)[head.len() as int] == tail[0]);
    }
}

} // verus!
