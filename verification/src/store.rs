//! The store of the namespace: one substituted directory, or the union of a
//! supplied store with the store of an outer instance.
//!
//! In the union each name occurs once. A name of the supplied store takes
//! the supplied entry; the outer entry of that name is passed over.

use vstd::prelude::*;
use vstd::string::is_ascii_spec_bytes;
use crate::entry::{
    distinct_names, entries_view, entry_named, has_name, is_listing, lemma_entry_named, names,
    DirListing, EntryView, ListingView, StoreEntry,
};
use crate::layout::{
    lemma_layout_spelled_out, outer_store_parent, relocated_root, spec_outer_store_parent,
    spec_relocated_root, spec_store_path, store_path,
};
use crate::mirror::{recreate_all, spec_recreate_all};
use crate::path::{copy_bytes, spec_join};
use crate::plan::{
    mode_option, plan_view, push_action, Action, ActionView, Step, StepView,
};

verus! {

/// The entries of `outer` whose name `supplied` does not have, in their
/// order.
pub open spec fn spec_unshadowed(supplied: Seq<EntryView>, outer: Seq<EntryView>) -> Seq<
    EntryView,
> {
    outer.filter(|entry: EntryView| !has_name(supplied, entry.name))
}

/// The union of two stores: the entries of `supplied`, then the entries of
/// `outer` whose name `supplied` does not have.
pub open spec fn spec_merge(supplied: Seq<EntryView>, outer: Seq<EntryView>) -> Seq<EntryView> {
    supplied + spec_unshadowed(supplied, outer)
}

/// From each name of a store to the path that its content comes from.
pub open spec fn spec_sources(entries: Seq<EntryView>) -> Map<Seq<u8>, Seq<u8>> {
    Map::new(
        |name: Seq<u8>| has_name(entries, name),
        |name: Seq<u8>| entry_named(entries, name).source,
    )
}

/// The entries that are kept from the outer store are entries of the outer
/// store, in their order, and none of them has a name of the supplied
/// store.
proof fn lemma_unshadowed(supplied: Seq<EntryView>, outer: Seq<EntryView>)
    requires
        is_listing(outer),
    ensures
        is_listing(spec_unshadowed(supplied, outer)),
        forall|k: int|
            0 <= k < spec_unshadowed(supplied, outer).len() ==> !has_name(
                supplied,
                (#[trigger] spec_unshadowed(supplied, outer)[k]).name,
            ),
        forall|name: Seq<u8>|
            has_name(spec_unshadowed(supplied, outer), name) <==> has_name(outer, name)
                && !has_name(supplied, name),
        forall|k: int|
            0 <= k < spec_unshadowed(supplied, outer).len() ==> entry_named(
                outer,
                (#[trigger] spec_unshadowed(supplied, outer)[k]).name,
            ) == spec_unshadowed(supplied, outer)[k],
    decreases outer.len(),
{
    let pred = |entry: EntryView| !has_name(supplied, entry.name);
    let kept = spec_unshadowed(supplied, outer);
    if outer.len() == 0 {
        reveal(Seq::filter);
        assert(kept =~= Seq::<EntryView>::empty());
        assert forall|name: Seq<u8>| has_name(kept, name) <==> has_name(outer, name) && !has_name(
            supplied,
            name,
        ) by {}
    } else {
        let front = outer.drop_last();
        let last = outer.last();
        let kept_front = spec_unshadowed(supplied, front);
        assert(is_listing(front)) by {
            assert forall|i: int, j: int| 0 <= i < j < front.len() implies #[trigger] front[i].name
                != #[trigger] front[j].name by {
                assert(outer[i].name != outer[j].name);
            }
            assert forall|i: int| 0 <= i < front.len() implies (#[trigger] front[i]).wf() by {
                assert(outer[i].wf());
            }
        }
        lemma_unshadowed(supplied, front);
        assert(front.push(last) =~= outer);
        front.lemma_filter_push(last, pred);
        assert(kept == if pred(last) {
            kept_front.push(last)
        } else {
            kept_front
        });
        // No entry of the front has the name of the last.
        assert(!has_name(front, last.name)) by {
            if has_name(front, last.name) {
                let i = choose|i: int| 0 <= i < front.len() && #[trigger] front[i].name
                    == last.name;
                assert(outer[i].name != outer[outer.len() - 1].name);
            }
        }
        assert(!has_name(kept_front, last.name));
        assert forall|name: Seq<u8>| has_name(outer, name) <==> has_name(front, name) || name
            == last.name by {
            if has_name(outer, name) {
                let i = choose|i: int| 0 <= i < outer.len() && #[trigger] outer[i].name == name;
                if i < front.len() {
                    assert(front[i].name == name);
                }
            }
            if has_name(front, name) {
                let i = choose|i: int| 0 <= i < front.len() && #[trigger] front[i].name == name;
                assert(outer[i].name == name);
            }
            if name == last.name {
                assert(outer[outer.len() - 1].name == name);
            }
        }
        assert forall|name: Seq<u8>| has_name(kept, name) <==> has_name(outer, name) && !has_name(
            supplied,
            name,
        ) by {
            if pred(last) {
                if has_name(kept, name) {
                    let k = choose|k: int| 0 <= k < kept.len() && #[trigger] kept[k].name == name;
                    if k < kept_front.len() {
                        assert(kept_front[k].name == name);
                    }
                }
                if has_name(kept_front, name) {
                    let k = choose|k: int| 0 <= k < kept_front.len() && #[trigger] kept_front[k].name
                        == name;
                    assert(kept[k].name == name);
                }
                if name == last.name {
                    assert(kept[kept.len() - 1].name == name);
                }
            }
        }
        assert forall|k: int| 0 <= k < kept.len() implies entry_named(
            outer,
            (#[trigger] kept[k]).name,
        ) == kept[k] by {
            if k < kept_front.len() {
                assert(kept[k] == kept_front[k]);
                assert(entry_named(front, kept_front[k].name) == kept_front[k]);
                assert(has_name(kept_front, kept_front[k].name));
                let i = choose|i: int| 0 <= i < front.len() && #[trigger] front[i].name
                    == kept_front[k].name;
                lemma_entry_named(front, i);
                lemma_entry_named(outer, i);
            } else {
                lemma_entry_named(outer, outer.len() - 1);
            }
        }
        assert(distinct_names(kept)) by {
            assert forall|i: int, j: int| 0 <= i < j < kept.len() implies #[trigger] kept[i].name
                != #[trigger] kept[j].name by {
                if j < kept_front.len() {
                    assert(kept_front[i].name != kept_front[j].name);
                } else {
                    assert(kept_front[i].name == kept[i].name);
                }
            }
        }
    }
}

/// A name is in a concatenation where it is in one of the parts.
proof fn lemma_has_name_concat(a: Seq<EntryView>, b: Seq<EntryView>, name: Seq<u8>)
    ensures
        has_name(a + b, name) <==> has_name(a, name) || has_name(b, name),
{
    let both = a + b;
    if has_name(both, name) {
        let i = choose|i: int| 0 <= i < both.len() && #[trigger] both[i].name == name;
        if i < a.len() {
            assert(a[i].name == name);
        } else {
            assert(b[i - a.len()].name == name);
        }
    }
    if has_name(a, name) {
        let i = choose|i: int| 0 <= i < a.len() && #[trigger] a[i].name == name;
        assert(both[i].name == name);
    }
    if has_name(b, name) {
        let i = choose|i: int| 0 <= i < b.len() && #[trigger] b[i].name == name;
        assert(both[a.len() + i].name == name);
    }
}

/// The union resolves each name by precedence: the union of two stores is
/// a store again; its names are the names of the two; a name of the
/// supplied store has the supplied entry, and a name of the outer store
/// alone has the outer entry.
pub proof fn lemma_merge_resolves(supplied: Seq<EntryView>, outer: Seq<EntryView>)
    requires
        is_listing(supplied),
        is_listing(outer),
    ensures
        is_listing(spec_merge(supplied, outer)),
        names(spec_merge(supplied, outer)) == names(supplied).union(names(outer)),
        forall|name: Seq<u8>|
            has_name(supplied, name) ==> #[trigger] entry_named(spec_merge(supplied, outer), name)
                == entry_named(supplied, name),
        forall|name: Seq<u8>|
            has_name(outer, name) && !has_name(supplied, name) ==> #[trigger] entry_named(
                spec_merge(supplied, outer),
                name,
            ) == entry_named(outer, name),
{
    let kept = spec_unshadowed(supplied, outer);
    let merged = spec_merge(supplied, outer);
    lemma_unshadowed(supplied, outer);
    assert(distinct_names(merged)) by {
        assert forall|i: int, j: int| 0 <= i < j < merged.len() implies #[trigger] merged[i].name
            != #[trigger] merged[j].name by {
            if j < supplied.len() {
                assert(supplied[i].name != supplied[j].name);
            } else if i < supplied.len() {
                let k = j - supplied.len();
                assert(!has_name(supplied, kept[k].name));
                assert(supplied[i].name != kept[k].name);
            } else {
                assert(kept[i - supplied.len()].name != kept[j - supplied.len()].name);
            }
        }
    }
    assert forall|i: int| 0 <= i < merged.len() implies (#[trigger] merged[i]).wf() by {
        if i < supplied.len() {
            assert(supplied[i].wf());
        } else {
            assert(kept[i - supplied.len()].wf());
        }
    }
    assert forall|name: Seq<u8>|
        names(merged).contains(name) <==> names(supplied).union(names(outer)).contains(name) by {
        lemma_has_name_concat(supplied, kept, name);
    }
    assert(names(merged) =~= names(supplied).union(names(outer)));
    assert forall|name: Seq<u8>| has_name(supplied, name) implies #[trigger] entry_named(
        merged,
        name,
    ) == entry_named(supplied, name) by {
        let i = choose|i: int| 0 <= i < supplied.len() && #[trigger] supplied[i].name == name;
        lemma_entry_named(supplied, i);
        assert(merged[i] == supplied[i]);
        lemma_entry_named(merged, i);
    }
    assert forall|name: Seq<u8>|
        has_name(outer, name) && !has_name(supplied, name) implies #[trigger] entry_named(
        merged,
        name,
    ) == entry_named(outer, name) by {
        assert(has_name(kept, name));
        let k = choose|k: int| 0 <= k < kept.len() && #[trigger] kept[k].name == name;
        assert(merged[supplied.len() + k] == kept[k]);
        lemma_entry_named(merged, supplied.len() + k);
    }
}

/// Without an outer store the union is the supplied store: one entry for
/// each of its names, each with the content of the supplied entry.
pub proof fn lemma_merge_without_outer(supplied: Seq<EntryView>)
    ensures
        spec_merge(supplied, Seq::empty()) == supplied,
        names(spec_merge(supplied, Seq::empty())) == names(supplied),
        spec_sources(spec_merge(supplied, Seq::empty())) == spec_sources(supplied),
{
    reveal(Seq::filter);
    assert(spec_unshadowed(supplied, Seq::empty()) =~= Seq::<EntryView>::empty());
    assert(spec_merge(supplied, Seq::empty()) =~= supplied);
}

/// The union takes each name's content by precedence: it has the names of
/// both stores; a name of the supplied store comes from the supplied
/// directory, and a name that only the outer store has comes from the
/// outer directory.
pub proof fn lemma_union_sources(supplied: ListingView, outer: ListingView)
    requires
        supplied.wf(),
        outer.wf(),
    ensures
        spec_sources(spec_merge(supplied.entries, outer.entries)).dom() == names(
            supplied.entries,
        ).union(names(outer.entries)),
        forall|name: Seq<u8>|
            has_name(supplied.entries, name) ==> #[trigger] spec_sources(
                spec_merge(supplied.entries, outer.entries),
            )[name] == spec_join(supplied.dir, name),
        forall|name: Seq<u8>|
            has_name(outer.entries, name) && !has_name(supplied.entries, name)
                ==> #[trigger] spec_sources(spec_merge(supplied.entries, outer.entries))[name]
                == spec_join(outer.dir, name),
{
    let merged = spec_merge(supplied.entries, outer.entries);
    lemma_merge_resolves(supplied.entries, outer.entries);
    assert(spec_sources(merged).dom() =~= names(merged));
    assert forall|name: Seq<u8>| has_name(supplied.entries, name) implies #[trigger] spec_sources(
        merged,
    )[name] == spec_join(supplied.dir, name) by {
        lemma_has_name_concat(supplied.entries, spec_unshadowed(supplied.entries, outer.entries), name);
        let i = choose|i: int|
            0 <= i < supplied.entries.len() && #[trigger] supplied.entries[i].name == name;
        lemma_entry_named(supplied.entries, i);
        assert(entry_named(merged, name) == entry_named(supplied.entries, name));
    }
    assert forall|name: Seq<u8>|
        has_name(outer.entries, name) && !has_name(
            supplied.entries,
            name,
        ) implies #[trigger] spec_sources(merged)[name] == spec_join(outer.dir, name) by {
        assert(names(merged).contains(name));
        let i = choose|i: int|
            0 <= i < outer.entries.len() && #[trigger] outer.entries[i].name == name;
        lemma_entry_named(outer.entries, i);
        assert(entry_named(merged, name) == entry_named(outer.entries, name));
    }
}

/// Without an outer store the store is the supplied directory itself: the
/// plan ends by bind-mounting it at the store path, and mounts nothing
/// else there. So the store has one entry for each name of the supplied
/// directory, each with the content of the supplied entry.
pub proof fn lemma_direct_store_presents_supplied(supplied: ListingView)
    requires
        supplied.wf(),
    ensures
        spec_direct_store(supplied.dir).last() == ActionView::bind_mount(
            supplied.dir,
            spec_store_path(),
        ),
        forall|k: int|
            0 <= k < spec_direct_store(supplied.dir).len() - 1 ==> !((
            #[trigger] spec_direct_store(supplied.dir)[k]).step matches StepView::Mount {
                target,
                ..
            } && target == spec_store_path()),
        spec_sources(spec_merge(supplied.entries, Seq::empty())).dom() == names(supplied.entries),
        forall|name: Seq<u8>|
            has_name(supplied.entries, name) ==> #[trigger] spec_sources(
                spec_merge(supplied.entries, Seq::empty()),
            )[name] == spec_join(supplied.dir, name),
{
    lemma_layout_spelled_out();
    reveal_strlit("/nix");
    reveal_strlit("/nix/store");
    is_ascii_spec_bytes("/nix");
    is_ascii_spec_bytes("/nix/store");
    assert(spec_relocated_root().len() != spec_store_path().len());
    lemma_merge_without_outer(supplied.entries);
    assert(spec_sources(supplied.entries).dom() =~= names(supplied.entries));
    assert forall|name: Seq<u8>| has_name(supplied.entries, name) implies #[trigger] spec_sources(
        supplied.entries,
    )[name] == spec_join(supplied.dir, name) by {
        let i = choose|i: int|
            0 <= i < supplied.entries.len() && #[trigger] supplied.entries[i].name == name;
        lemma_entry_named(supplied.entries, i);
    }
}

/// A filter keeps a sequence whole where every element passes, and keeps
/// nothing where none does.
proof fn lemma_filter_all_or_nothing(entries: Seq<EntryView>, pred: spec_fn(EntryView) -> bool)
    ensures
        (forall|i: int| 0 <= i < entries.len() ==> pred(#[trigger] entries[i])) ==> entries.filter(
            pred,
        ) == entries,
        (forall|i: int| 0 <= i < entries.len() ==> !pred(#[trigger] entries[i])) ==> entries.filter(
            pred,
        ) == Seq::<EntryView>::empty(),
    decreases entries.len(),
{
    reveal(Seq::filter);
    if entries.len() > 0 {
        let front = entries.drop_last();
        lemma_filter_all_or_nothing(front, pred);
        if forall|i: int| 0 <= i < entries.len() ==> pred(#[trigger] entries[i]) {
            assert forall|i: int| 0 <= i < front.len() implies pred(#[trigger] front[i]) by {
                assert(pred(entries[i]));
            }
            assert(pred(entries[entries.len() - 1]));
            assert(front.push(entries.last()) =~= entries);
        }
        if forall|i: int| 0 <= i < entries.len() ==> !pred(#[trigger] entries[i]) {
            assert forall|i: int| 0 <= i < front.len() implies !pred(#[trigger] front[i]) by {
                assert(!pred(entries[i]));
            }
            assert(!pred(entries[entries.len() - 1]));
        }
    }
}

/// Reconciling again changes nothing: where the outer store is itself the
/// union that an earlier run made of the same supplied store, the union
/// comes out as it was, entry for entry.
pub proof fn lemma_merge_idempotent(supplied: Seq<EntryView>, outer: Seq<EntryView>)
    requires
        is_listing(supplied),
        is_listing(outer),
    ensures
        spec_merge(supplied, spec_merge(supplied, outer)) == spec_merge(supplied, outer),
        spec_sources(spec_merge(supplied, spec_merge(supplied, outer))) == spec_sources(
            spec_merge(supplied, outer),
        ),
{
    let pred = |entry: EntryView| !has_name(supplied, entry.name);
    let kept = spec_unshadowed(supplied, outer);
    lemma_unshadowed(supplied, outer);
    Seq::filter_distributes_over_add(supplied, kept, pred);
    lemma_filter_all_or_nothing(supplied, pred);
    lemma_filter_all_or_nothing(kept, pred);
    assert forall|i: int| 0 <= i < supplied.len() implies !pred(#[trigger] supplied[i]) by {
        assert(supplied[i].name == supplied[i].name);
    }
    assert(spec_unshadowed(supplied, supplied + kept) =~= kept);
}

/// The union is a function of the two stores: two runs on the same stores
/// resolve every name to the same source.
pub proof fn lemma_merge_repeatable(
    supplied: Seq<EntryView>,
    outer: Seq<EntryView>,
    first: Seq<EntryView>,
    second: Seq<EntryView>,
)
    requires
        first == spec_merge(supplied, outer),
        second == spec_merge(supplied, outer),
    ensures
        first == second,
        spec_sources(first) == spec_sources(second),
{
}

/// The union of two stores: the entries of `supplied`, then the entries of
/// `outer` whose name `supplied` does not have.
pub fn merge(supplied: &DirListing, outer: &DirListing) -> (merged: Vec<StoreEntry>)
    ensures
        entries_view(merged@) == spec_merge(supplied@.entries, outer@.entries),
{
    let first = supplied.entries();
    let second = outer.entries();
    let ghost pred = |entry: EntryView| !has_name(supplied@.entries, entry.name);
    let mut merged: Vec<StoreEntry> = Vec::new();
    let mut i: usize = 0;
    assert(supplied@.entries.take(0) =~= entries_view(merged@));
    while i < first.len()
        invariant
            entries_view(first@) == supplied@.entries,
            i <= first@.len(),
            entries_view(merged@) == supplied@.entries.take(i as int),
        decreases first@.len() - i,
    {
        let ghost before = entries_view(merged@);
        merged.push(first[i].duplicate());
        assert(entries_view(merged@) =~= before.push(first@[i as int]@));
        assert(supplied@.entries.take(i as int).push(supplied@.entries[i as int])
            =~= supplied@.entries.take(i + 1));
        i += 1;
    }
    assert(supplied@.entries.take(i as int) =~= supplied@.entries);
    let mut j: usize = 0;
    proof {
        reveal(Seq::filter);
        assert(outer@.entries.take(0).filter(pred) =~= Seq::<EntryView>::empty());
        assert(supplied@.entries + Seq::<EntryView>::empty() =~= supplied@.entries);
    }
    while j < second.len()
        invariant
            entries_view(second@) == outer@.entries,
            pred == |entry: EntryView| !has_name(supplied@.entries, entry.name),
            j <= second@.len(),
            entries_view(merged@) == supplied@.entries + outer@.entries.take(j as int).filter(
                pred,
            ),
        decreases second@.len() - j,
    {
        let ghost before = entries_view(merged@);
        let ghost seen = outer@.entries.take(j as int);
        let entry = &second[j];
        proof {
            seen.lemma_filter_push(entry@, pred);
            assert(seen.push(entry@) =~= outer@.entries.take(j + 1));
        }
        if !supplied.contains_name(entry.name()) {
            merged.push(entry.duplicate());
            assert(entries_view(merged@) =~= before.push(entry@));
        }
        assert(entries_view(merged@) =~= supplied@.entries + outer@.entries.take(j + 1).filter(
            pred,
        ));
        j += 1;
    }
    assert(outer@.entries.take(j as int) =~= outer@.entries);
    merged
}

/// Without an outer store: a fresh in-memory file system over the parent
/// of the store, with mode 0755; the store directory in it; and the
/// supplied directory bind-mounted there, whole and writable as far as its
/// own permissions go.
pub open spec fn spec_direct_store(supplied_dir: Seq<u8>) -> Seq<ActionView> {
    seq![
        ActionView::mount_tmpfs(spec_relocated_root(), Some(mode_option())),
        ActionView::fatal(StepView::CreateDir { path: spec_store_path(), parents: true }),
        ActionView::bind_mount(supplied_dir, spec_store_path()),
    ]
}

/// With an outer store, before the stores are read: the parent of the
/// outer store is bind-mounted over the parent of the store, which makes
/// the outer store visible at the store path; that store is bind-mounted
/// aside at `stash`; and a fresh in-memory file system, with mode 0755,
/// is mounted over the store path.
pub open spec fn spec_stash_outer_store(stash: Seq<u8>) -> Seq<ActionView> {
    seq![
        ActionView::bind_mount(spec_outer_store_parent(), spec_relocated_root()),
        ActionView::bind_mount(spec_store_path(), stash),
        ActionView::mount_tmpfs(spec_store_path(), Some(mode_option())),
    ]
}

/// With an outer store, once the stores are read: the entries of the union
/// are recreated at the store path; the store is remounted read-only; and
/// the guard of the stash ends its scope.
pub open spec fn spec_union_store(
    supplied: Seq<EntryView>,
    outer: Seq<EntryView>,
    stash: Seq<u8>,
) -> Seq<ActionView> {
    spec_recreate_all(spec_merge(supplied, outer), spec_store_path(), false).push(
        ActionView::remount_read_only(spec_store_path()),
    ).push(ActionView::fatal(StepView::ReleaseGuard { path: stash }))
}

/// Plans the store where there is no outer store.
pub fn direct_store(supplied_dir: &Vec<u8>) -> (plan: Vec<Action>)
    ensures
        plan_view(plan@) == spec_direct_store(supplied_dir@),
{
    let store = store_path();
    let mut plan: Vec<Action> = Vec::new();
    plan.push(Action::mount_tmpfs(&relocated_root(), true));
    plan.push(Action::fatal(Step::CreateDir { path: copy_bytes(&store), parents: true }));
    plan.push(Action::bind_mount(supplied_dir, &store));
    assert(plan_view(plan@) =~= spec_direct_store(supplied_dir@));
    plan
}

/// Plans what is done to the store before the two stores are read, where
/// there is an outer store. `stash` is a temporary directory under a
/// guard.
pub fn stash_outer_store(stash: &Vec<u8>) -> (plan: Vec<Action>)
    ensures
        plan_view(plan@) == spec_stash_outer_store(stash@),
{
    let store = store_path();
    let mut plan: Vec<Action> = Vec::new();
    plan.push(Action::bind_mount(&outer_store_parent(), &relocated_root()));
    plan.push(Action::bind_mount(&store, stash));
    plan.push(Action::mount_tmpfs(&store, true));
    assert(plan_view(plan@) =~= spec_stash_outer_store(stash@));
    plan
}

/// Plans the union of the two stores at the store path. `supplied` lists
/// the supplied store and `outer` the outer store as it is found under
/// `stash`.
pub fn union_store(supplied: &DirListing, outer: &DirListing, stash: &Vec<u8>) -> (plan: Vec<
    Action,
>)
    ensures
        plan_view(plan@) == spec_union_store(supplied@.entries, outer@.entries, stash@),
{
    let store = store_path();
    let merged = merge(supplied, outer);
    let mut plan = recreate_all(&merged, &store, false);
    push_action(&mut plan, Action::remount_read_only(&store));
    push_action(&mut plan, Action::fatal(Step::ReleaseGuard { path: copy_bytes(stash) }));
    plan
}

/// The union ends read-only: the remount of the store path as read-only
/// comes after everything that is placed in the store, and only the end of
/// the stash guard's scope follows it.
pub proof fn lemma_union_ends_read_only(
    supplied: Seq<EntryView>,
    outer: Seq<EntryView>,
    stash: Seq<u8>,
)
    ensures
        spec_union_store(supplied, outer, stash).len() >= 2,
        spec_union_store(supplied, outer, stash)[spec_union_store(supplied, outer, stash).len()
            - 2] == ActionView::remount_read_only(spec_store_path()),
        spec_union_store(supplied, outer, stash).last() == ActionView::fatal(
            StepView::ReleaseGuard { path: stash },
        ),
        ActionView::remount_read_only(spec_store_path()).step matches StepView::Mount {
            flags,
            ..
        } && flags.read_only && flags.remount,
{
}

} // verus!
