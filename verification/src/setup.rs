//! The setup as a whole: which stage follows which, what each stage must
//! be told, and what it then asks for.
//!
//! The caller carries out the plan of a stage completely before it looks
//! at what the next stage has to be told, because what is to be seen
//! depends on the mounts that the plan has made.

use vstd::prelude::*;
use crate::entry::{DirListing, ListingView};
use crate::identity::NamespaceIdentityMapping;
use crate::launch::{launch, spec_launch};
use crate::layout::{relocated_root, spec_relocated_root};
use crate::mirror::{mirror_tree, spec_mirror_tree};
use crate::namespace::{enter_namespace, spec_enter_namespace};
use crate::path::{copy_bytes, same_bytes};
use crate::pivot::{pivot_root, spec_pivot_root};
use crate::plan::{
    append_plan, byte_strings, optional_bytes, plan_view, push_action, Action, ActionView, Step,
    StepView,
};
use crate::store::{
    direct_store, spec_direct_store, spec_stash_outer_store, spec_union_store, stash_outer_store,
    union_store,
};

verus! {

/// How far the setup has come.
#[derive(Clone, Copy, PartialEq, Eq, Debug, Structural)]
pub enum Stage {
    /// Nothing has been done. The next stage needs to be told nothing.
    Start,
    /// The namespace is entered and the root is swapped. The next stage
    /// needs the entries of the relocated old root; it ends the scope of
    /// the guard of the temporary root, which is defused by then.
    RootPivoted,
    /// The old root is mirrored in the new root. The next stage needs to
    /// know whether the path of an outer store exists and, if it does, a
    /// fresh temporary directory under a guard to stash that store in.
    TreeMirrored,
    /// The outer store is stashed and the store path is cleared. The next
    /// stage needs the entries of the supplied store and of the stash.
    OuterStoreStashed,
    /// The store is in place. The next stage needs to be told nothing.
    StoreReconciled,
    /// The command has been handed the process. Nothing follows.
    Launched,
}

impl Stage {
    /// The place of the stage in the order of the setup.
    pub open spec fn rank(self) -> nat {
        match self {
            Stage::Start => 0,
            Stage::RootPivoted => 1,
            Stage::TreeMirrored => 2,
            Stage::OuterStoreStashed => 3,
            Stage::StoreReconciled => 4,
            Stage::Launched => 5,
        }
    }
}

/// What the caller has seen on the machine for the stage to come.
#[derive(Debug)]
pub enum Observation {
    /// Nothing had to be looked at.
    Nothing,
    /// The entries of the relocated old root.
    RootEntries { listing: DirListing },
    /// The path of an outer store does not exist.
    NoOuterStore,
    /// The path of an outer store exists, and `stash` is a fresh
    /// temporary directory under a guard.
    OuterStore { stash: Vec<u8> },
    /// The entries of the supplied store, and the entries of the stash.
    StoreEntries { supplied: DirListing, outer: DirListing },
}

/// An observation, as plain values.
pub enum ObservationView {
    Nothing,
    RootEntries { listing: ListingView },
    NoOuterStore,
    OuterStore { stash: Seq<u8> },
    StoreEntries { supplied: ListingView, outer: ListingView },
}

impl View for Observation {
    type V = ObservationView;

    open spec fn view(&self) -> ObservationView {
        match *self {
            Observation::Nothing => ObservationView::Nothing,
            Observation::RootEntries { listing } => ObservationView::RootEntries {
                listing: listing@,
            },
            Observation::NoOuterStore => ObservationView::NoOuterStore,
            Observation::OuterStore { stash } => ObservationView::OuterStore { stash: stash@ },
            Observation::StoreEntries { supplied, outer } => ObservationView::StoreEntries {
                supplied: supplied@,
                outer: outer@,
            },
        }
    }
}

/// A setup, as plain values.
pub struct SetupView {
    /// How far the setup has come.
    pub stage: Stage,
    /// The identity that the caller keeps.
    pub mapping: NamespaceIdentityMapping,
    /// The temporary directory that becomes the root.
    pub temp_root: Seq<u8>,
    /// The directory to present as the store, resolved.
    pub store_source: Seq<u8>,
    /// The working directory to return to.
    pub cwd: Seq<u8>,
    /// The command to run.
    pub command: Seq<u8>,
    /// The arguments of the command.
    pub args: Seq<Seq<u8>>,
    /// Where the outer store is stashed, once it is.
    pub stash: Option<Seq<u8>>,
}

impl SetupView {
    /// The stash is known while the outer store is stashed.
    pub open spec fn wf(self) -> bool {
        self.stage == Stage::OuterStoreStashed ==> self.stash is Some
    }

    /// The setup at the stage `stage`.
    pub open spec fn at(self, stage: Stage) -> SetupView {
        SetupView { stage, ..self }
    }

    /// The setup at the stage at which the outer store is stashed in
    /// `stash`.
    pub open spec fn stashed_in(self, stash: Seq<u8>) -> SetupView {
        SetupView { stage: Stage::OuterStoreStashed, stash: Some(stash), ..self }
    }
}

/// One stage of the setup: from the setup and what was seen, to the setup
/// after the stage and the plan of the stage. Nothing comes back where
/// what was seen is not what the stage needs, or lists another directory
/// than the one that the stage reads.
pub open spec fn spec_advance(setup: SetupView, seen: ObservationView) -> Option<
    (SetupView, Seq<ActionView>),
> {
    match (setup.stage, seen) {
        (Stage::Start, ObservationView::Nothing) => Some(
            (
                setup.at(Stage::RootPivoted),
                spec_enter_namespace(setup.mapping) + spec_pivot_root(setup.temp_root),
            ),
        ),
        (Stage::RootPivoted, ObservationView::RootEntries { listing }) => if listing.dir
            == spec_relocated_root() {
            Some(
                (
                    setup.at(Stage::TreeMirrored),
                    spec_mirror_tree(listing.entries).push(
                        ActionView::fatal(StepView::ReleaseGuard { path: setup.temp_root }),
                    ),
                ),
            )
        } else {
            None
        },
        (Stage::TreeMirrored, ObservationView::NoOuterStore) => Some(
            (setup.at(Stage::StoreReconciled), spec_direct_store(setup.store_source)),
        ),
        (Stage::TreeMirrored, ObservationView::OuterStore { stash }) => Some(
            (setup.stashed_in(stash), spec_stash_outer_store(stash)),
        ),
        (Stage::OuterStoreStashed, ObservationView::StoreEntries { supplied, outer }) => {
            match setup.stash {
                Some(stash) => if supplied.dir == setup.store_source && outer.dir == stash {
                    Some(
                        (
                            setup.at(Stage::StoreReconciled),
                            spec_union_store(supplied.entries, outer.entries, stash),
                        ),
                    )
                } else {
                    None
                },
                None => None,
            }
        },
        (Stage::StoreReconciled, ObservationView::Nothing) => Some(
            (setup.at(Stage::Launched), spec_launch(setup.cwd, setup.command, setup.args)),
        ),
        _ => None,
    }
}

/// The setup of one namespace for one command.
#[derive(Debug)]
pub struct Setup {
    stage: Stage,
    mapping: NamespaceIdentityMapping,
    temp_root: Vec<u8>,
    store_source: Vec<u8>,
    cwd: Vec<u8>,
    command: Vec<u8>,
    args: Vec<Vec<u8>>,
    stash: Option<Vec<u8>>,
}

impl View for Setup {
    type V = SetupView;

    closed spec fn view(&self) -> SetupView {
        SetupView {
            stage: self.stage,
            mapping: self.mapping,
            temp_root: self.temp_root@,
            store_source: self.store_source@,
            cwd: self.cwd@,
            command: self.command@,
            args: byte_strings(self.args@),
            stash: optional_bytes(self.stash),
        }
    }
}

impl Setup {
    /// Every setup is well formed.
    #[verifier::type_invariant]
    pub open spec fn inv(&self) -> bool {
        self@.wf()
    }

    /// A setup at its start. `mapping` is the caller's identity as taken
    /// before anything is done; `temp_root` is a temporary directory under
    /// a guard; `store_source` is the directory to present as the store,
    /// resolved to an absolute path without symbolic links; `cwd` is the
    /// working directory to return to; `command` and `args` say what to
    /// run.
    pub fn new(
        mapping: NamespaceIdentityMapping,
        temp_root: Vec<u8>,
        store_source: Vec<u8>,
        cwd: Vec<u8>,
        command: Vec<u8>,
        args: Vec<Vec<u8>>,
    ) -> (setup: Setup)
        ensures
            setup@ == (SetupView {
                stage: Stage::Start,
                mapping,
                temp_root: temp_root@,
                store_source: store_source@,
                cwd: cwd@,
                command: command@,
                args: byte_strings(args@),
                stash: None,
            }),
    {
        Setup { stage: Stage::Start, mapping, temp_root, store_source, cwd, command, args, stash: None }
    }

    /// How far the setup has come.
    pub fn stage(&self) -> (stage: Stage)
        ensures
            stage == self@.stage,
    {
        self.stage
    }

    /// The directory to present as the store.
    pub fn store_source(&self) -> (path: &Vec<u8>)
        ensures
            path@ == self@.store_source,
    {
        &self.store_source
    }

    /// Where the outer store is stashed, once it is.
    pub fn stash(&self) -> (path: Option<&Vec<u8>>)
        ensures
            match path {
                Some(p) => self@.stash == Some(p@),
                None => self@.stash is None,
            },
    {
        match &self.stash {
            Some(path) => Some(path),
            None => None,
        }
    }

    /// Whether the command has been handed the process.
    pub fn is_finished(&self) -> (finished: bool)
        ensures
            finished == (self@.stage == Stage::Launched),
    {
        match self.stage {
            Stage::Launched => true,
            _ => false,
        }
    }

    /// Takes the setup through its next stage. `seen` is what the caller
    /// has seen for it. Returns the plan of the stage, to be carried out
    /// completely before the next call; or nothing, with the setup
    /// unchanged, where `seen` is not what the stage needs.
    pub fn advance(&mut self, seen: Observation) -> (plan: Option<Vec<Action>>)
        ensures
            match spec_advance(old(self)@, seen@) {
                Some((next, actions)) => {
                    &&& final(self)@ == next
                    &&& plan matches Some(p)
                    &&& plan_view(p@) == actions
                },
                None => final(self)@ == old(self)@ && plan is None,
            },
    {
        proof {
            use_type_invariant(&*self);
        }
        match (self.stage, seen) {
            (Stage::Start, Observation::Nothing) => {
                let mut plan = enter_namespace(&self.mapping);
                append_plan(&mut plan, pivot_root(&self.temp_root));
                self.stage = Stage::RootPivoted;
                Some(plan)
            },
            (Stage::RootPivoted, Observation::RootEntries { listing }) => {
                if same_bytes(listing.dir(), &relocated_root()) {
                    let mut plan = mirror_tree(&listing);
                    push_action(
                        &mut plan,
                        Action::fatal(Step::ReleaseGuard { path: copy_bytes(&self.temp_root) }),
                    );
                    self.stage = Stage::TreeMirrored;
                    Some(plan)
                } else {
                    None
                }
            },
            (Stage::TreeMirrored, Observation::NoOuterStore) => {
                let plan = direct_store(&self.store_source);
                self.stage = Stage::StoreReconciled;
                Some(plan)
            },
            (Stage::TreeMirrored, Observation::OuterStore { stash }) => {
                let plan = stash_outer_store(&stash);
                self.stash = Some(stash);
                self.stage = Stage::OuterStoreStashed;
                Some(plan)
            },
            (Stage::OuterStoreStashed, Observation::StoreEntries { supplied, outer }) => {
                let plan = match &self.stash {
                    Some(stash) => {
                        if same_bytes(supplied.dir(), &self.store_source) && same_bytes(
                            outer.dir(),
                            stash,
                        ) {
                            Some(union_store(&supplied, &outer, stash))
                        } else {
                            None
                        }
                    },
                    None => None,
                };
                if plan.is_some() {
                    self.stage = Stage::StoreReconciled;
                }
                plan
            },
            (Stage::StoreReconciled, Observation::Nothing) => {
                let plan = launch(&self.cwd, &self.command, &self.args);
                self.stage = Stage::Launched;
                Some(plan)
            },
            _ => None,
        }
    }
}

/// The stages come in their order and none is taken twice: a stage that
/// is taken moves the setup forward, changes nothing else but the stash,
/// and leaves it well formed. After the hand-over nothing is taken.
pub proof fn lemma_stages_in_order(setup: SetupView, seen: ObservationView)
    requires
        setup.wf(),
    ensures
        spec_advance(setup, seen) matches Some((next, _)) ==> {
            &&& next.wf()
            &&& next.stage.rank() > setup.stage.rank()
            &&& next == SetupView { stage: next.stage, stash: next.stash, ..setup }
        },
        setup.stage == Stage::Launched ==> spec_advance(setup, seen) is None,
{
}

} // verus!
