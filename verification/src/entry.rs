//! Directory entries and listings, as the setup reads them.

use vstd::prelude::*;
use crate::path::{check_component, copy_bytes, is_component, join, same_bytes, spec_join};
use crate::plan::optional_bytes;

verus! {

/// The kinds of entry that the setup recreates.
#[derive(Clone, Copy, PartialEq, Eq, Debug, Structural)]
pub enum EntryKind {
    Directory,
    RegularFile,
    Symlink,
}

impl EntryKind {
    /// The kind of an entry whose own status (links not followed) says
    /// `is_dir`, `is_file` and `is_symlink`: a directory first, then a
    /// regular file, then a symbolic link. Anything else has no kind and is
    /// passed over.
    pub open spec fn spec_classify(is_dir: bool, is_file: bool, is_symlink: bool) -> Option<
        EntryKind,
    > {
        if is_dir {
            Some(EntryKind::Directory)
        } else if is_file {
            Some(EntryKind::RegularFile)
        } else if is_symlink {
            Some(EntryKind::Symlink)
        } else {
            None
        }
    }

    /// The kind of an entry, from what its status says.
    pub fn classify(is_dir: bool, is_file: bool, is_symlink: bool) -> (kind: Option<EntryKind>)
        ensures
            kind == EntryKind::spec_classify(is_dir, is_file, is_symlink),
    {
        if is_dir {
            Some(EntryKind::Directory)
        } else if is_file {
            Some(EntryKind::RegularFile)
        } else if is_symlink {
            Some(EntryKind::Symlink)
        } else {
            None
        }
    }
}

/// A directory entry, as plain values.
pub struct EntryView {
    /// The name of the entry in its directory.
    pub name: Seq<u8>,
    /// What the entry is.
    pub kind: EntryKind,
    /// The path of the entry.
    pub source: Seq<u8>,
    /// Where the entry points to, for a symbolic link.
    pub link_target: Option<Seq<u8>>,
}

impl EntryView {
    /// The name is a single component, and exactly the symbolic links have
    /// a target.
    pub open spec fn wf(self) -> bool {
        &&& is_component(self.name)
        &&& self.kind == EntryKind::Symlink <==> self.link_target is Some
    }

    /// The directory `name` in `dir`.
    pub open spec fn directory(dir: Seq<u8>, name: Seq<u8>) -> EntryView {
        EntryView {
            name,
            kind: EntryKind::Directory,
            source: spec_join(dir, name),
            link_target: None,
        }
    }

    /// The regular file `name` in `dir`.
    pub open spec fn regular_file(dir: Seq<u8>, name: Seq<u8>) -> EntryView {
        EntryView {
            name,
            kind: EntryKind::RegularFile,
            source: spec_join(dir, name),
            link_target: None,
        }
    }

    /// The symbolic link `name` in `dir`, which points to `target`.
    pub open spec fn symlink(dir: Seq<u8>, name: Seq<u8>, target: Seq<u8>) -> EntryView {
        EntryView {
            name,
            kind: EntryKind::Symlink,
            source: spec_join(dir, name),
            link_target: Some(target),
        }
    }
}

/// A snapshot of one directory entry to recreate.
#[derive(PartialEq, Eq, Debug)]
pub struct DirEntryDescriptor {
    name: Vec<u8>,
    kind: EntryKind,
    source_path: Vec<u8>,
    link_target: Option<Vec<u8>>,
}

/// One named child of a store directory.
pub type StoreEntry = DirEntryDescriptor;

impl View for DirEntryDescriptor {
    type V = EntryView;

    closed spec fn view(&self) -> EntryView {
        EntryView {
            name: self.name@,
            kind: self.kind,
            source: self.source_path@,
            link_target: optional_bytes(self.link_target),
        }
    }
}

impl DirEntryDescriptor {
    /// Every descriptor is well formed.
    #[verifier::type_invariant]
    pub open spec fn inv(&self) -> bool {
        self@.wf()
    }

    /// The directory `name` in `dir`; nothing where `name` is not a single
    /// path component.
    pub fn directory(dir: &Vec<u8>, name: Vec<u8>) -> (entry: Option<DirEntryDescriptor>)
        ensures
            entry is Some == is_component(name@),
            entry matches Some(e) ==> e@ == EntryView::directory(dir@, name@),
    {
        if !check_component(&name) {
            return None;
        }
        let source_path = join(dir, &name);
        Some(DirEntryDescriptor { name, kind: EntryKind::Directory, source_path, link_target: None })
    }

    /// The regular file `name` in `dir`; nothing where `name` is not a
    /// single path component.
    pub fn regular_file(dir: &Vec<u8>, name: Vec<u8>) -> (entry: Option<DirEntryDescriptor>)
        ensures
            entry is Some == is_component(name@),
            entry matches Some(e) ==> e@ == EntryView::regular_file(dir@, name@),
    {
        if !check_component(&name) {
            return None;
        }
        let source_path = join(dir, &name);
        Some(
            DirEntryDescriptor {
                name,
                kind: EntryKind::RegularFile,
                source_path,
                link_target: None,
            },
        )
    }

    /// The symbolic link `name` in `dir`, which points to `target`; nothing
    /// where `name` is not a single path component.
    pub fn symlink(dir: &Vec<u8>, name: Vec<u8>, target: Vec<u8>) -> (entry: Option<
        DirEntryDescriptor,
    >)
        ensures
            entry is Some == is_component(name@),
            entry matches Some(e) ==> e@ == EntryView::symlink(dir@, name@, target@),
    {
        if !check_component(&name) {
            return None;
        }
        let source_path = join(dir, &name);
        Some(
            DirEntryDescriptor {
                name,
                kind: EntryKind::Symlink,
                source_path,
                link_target: Some(target),
            },
        )
    }

    /// The name of the entry in its directory.
    pub fn name(&self) -> (name: &Vec<u8>)
        ensures
            name@ == self@.name,
            is_component(name@),
    {
        proof {
            use_type_invariant(self);
        }
        &self.name
    }

    /// What the entry is.
    pub fn kind(&self) -> (kind: EntryKind)
        ensures
            kind == self@.kind,
    {
        self.kind
    }

    /// The path of the entry.
    pub fn source_path(&self) -> (path: &Vec<u8>)
        ensures
            path@ == self@.source,
    {
        &self.source_path
    }

    /// Where the entry points to: something exactly for a symbolic link.
    pub fn link_target(&self) -> (target: Option<&Vec<u8>>)
        ensures
            target is Some == (self@.kind == EntryKind::Symlink),
            match target {
                Some(t) => self@.link_target == Some(t@),
                None => self@.link_target is None,
            },
    {
        proof {
            use_type_invariant(self);
        }
        match &self.link_target {
            Some(target) => Some(target),
            None => None,
        }
    }

    /// A copy of the descriptor.
    pub fn duplicate(&self) -> (copy: DirEntryDescriptor)
        ensures
            copy@ == self@,
    {
        proof {
            use_type_invariant(self);
        }
        let link_target = match &self.link_target {
            Some(target) => Some(copy_bytes(target)),
            None => None,
        };
        DirEntryDescriptor {
            name: copy_bytes(&self.name),
            kind: self.kind,
            source_path: copy_bytes(&self.source_path),
            link_target,
        }
    }
}

/// Whether an entry of `entries` has the name `name`.
pub open spec fn has_name(entries: Seq<EntryView>, name: Seq<u8>) -> bool {
    exists|i: int| 0 <= i < entries.len() && #[trigger] entries[i].name == name
}

/// The names of `entries`.
pub open spec fn names(entries: Seq<EntryView>) -> Set<Seq<u8>> {
    Set::new(|name: Seq<u8>| has_name(entries, name))
}

/// No two entries of `entries` share a name.
pub open spec fn distinct_names(entries: Seq<EntryView>) -> bool {
    forall|i: int, j: int|
        0 <= i < j < entries.len() ==> #[trigger] entries[i].name != #[trigger] entries[j].name
}

/// The entries are well formed and no two share a name, as the entries of
/// one directory are.
pub open spec fn is_listing(entries: Seq<EntryView>) -> bool {
    &&& distinct_names(entries)
    &&& forall|i: int| 0 <= i < entries.len() ==> #[trigger] entries[i].wf()
}

/// The entry of `entries` that has the name `name`.
pub open spec fn entry_named(entries: Seq<EntryView>, name: Seq<u8>) -> EntryView
    recommends
        has_name(entries, name),
{
    entries[choose|i: int| 0 <= i < entries.len() && #[trigger] entries[i].name == name]
}

/// In a listing, the entry of a name is the one entry that has it.
pub proof fn lemma_entry_named(entries: Seq<EntryView>, i: int)
    requires
        distinct_names(entries),
        0 <= i < entries.len(),
    ensures
        has_name(entries, entries[i].name),
        entry_named(entries, entries[i].name) == entries[i],
{
    let name = entries[i].name;
    assert(entries[i].name == name);
    let j = choose|j: int| 0 <= j < entries.len() && #[trigger] entries[j].name == name;
    if j < i {
        assert(entries[j].name != entries[i].name);
    } else if i < j {
        assert(entries[i].name != entries[j].name);
    }
}

/// What a list of descriptors holds, as plain values.
pub open spec fn entries_view(entries: Seq<DirEntryDescriptor>) -> Seq<EntryView> {
    Seq::new(entries.len(), |i: int| entries[i]@)
}

/// The entries of one directory, as plain values.
pub struct ListingView {
    /// The directory that was read.
    pub dir: Seq<u8>,
    /// Its entries, in the order in which they were read.
    pub entries: Seq<EntryView>,
}

impl ListingView {
    /// The entries are well formed, no two share a name, and each lies in
    /// the directory under its name.
    pub open spec fn wf(self) -> bool {
        &&& is_listing(self.entries)
        &&& forall|i: int|
            0 <= i < self.entries.len() ==> (#[trigger] self.entries[i]).source == spec_join(
                self.dir,
                self.entries[i].name,
            )
    }
}

/// The entries of one directory, in the order in which they were read.
#[derive(PartialEq, Eq, Debug)]
pub struct DirListing {
    dir: Vec<u8>,
    entries: Vec<DirEntryDescriptor>,
}

impl View for DirListing {
    type V = ListingView;

    closed spec fn view(&self) -> ListingView {
        ListingView { dir: self.dir@, entries: entries_view(self.entries@) }
    }
}

impl DirListing {
    /// Every listing is well formed.
    #[verifier::type_invariant]
    pub open spec fn inv(&self) -> bool {
        self@.wf()
    }

    /// The listing of `dir`, with no entry yet.
    pub fn new(dir: Vec<u8>) -> (listing: DirListing)
        ensures
            listing@ == (ListingView { dir: dir@, entries: Seq::empty() }),
    {
        let listing = DirListing { dir, entries: Vec::new() };
        assert(listing@.entries =~= Seq::<EntryView>::empty());
        listing
    }

    /// The directory that was read.
    pub fn dir(&self) -> (dir: &Vec<u8>)
        ensures
            dir@ == self@.dir,
    {
        &self.dir
    }

    /// The number of entries.
    pub fn len(&self) -> (n: usize)
        ensures
            n == self@.entries.len(),
    {
        self.entries.len()
    }

    /// The entries, in the order in which they were read.
    pub fn entries(&self) -> (entries: &Vec<DirEntryDescriptor>)
        ensures
            entries_view(entries@) == self@.entries,
            self@.wf(),
    {
        proof {
            use_type_invariant(self);
        }
        &self.entries
    }

    /// The entry at `index`, if there is one.
    pub fn entry(&self, index: usize) -> (entry: Option<&DirEntryDescriptor>)
        ensures
            entry is Some == (index < self@.entries.len()),
            entry matches Some(e) ==> e@ == self@.entries[index as int],
    {
        if index < self.entries.len() {
            Some(&self.entries[index])
        } else {
            None
        }
    }

    /// Whether an entry has the name `name`.
    pub fn contains_name(&self, name: &Vec<u8>) -> (found: bool)
        ensures
            found == has_name(self@.entries, name@),
    {
        let mut i: usize = 0;
        while i < self.entries.len()
            invariant
                i <= self.entries@.len(),
                forall|j: int| 0 <= j < i ==> (#[trigger] self@.entries[j]).name != name@,
            decreases self.entries@.len() - i,
        {
            if same_bytes(self.entries[i].name(), name) {
                assert(self@.entries[i as int].name == name@);
                return true;
            }
            i += 1;
        }
        false
    }

    /// Adds `entry` at the end, where it is an entry of this directory
    /// (its path is the directory's path extended by its name) and no
    /// entry of its name is there yet. Otherwise the listing stays as it
    /// is. Returns whether the entry was added.
    pub fn insert(&mut self, entry: DirEntryDescriptor) -> (added: bool)
        ensures
            added == (!has_name(old(self)@.entries, entry@.name) && entry@.source == spec_join(
                old(self)@.dir,
                entry@.name,
            )),
            final(self)@.dir == old(self)@.dir,
            final(self)@.entries == if added {
                old(self)@.entries.push(entry@)
            } else {
                old(self)@.entries
            },
    {
        proof {
            use_type_invariant(&*self);
            use_type_invariant(&entry);
        }
        if self.contains_name(entry.name()) {
            return false;
        }
        let expected = join(&self.dir, entry.name());
        if !same_bytes(&expected, entry.source_path()) {
            return false;
        }
        let ghost before = self@.entries;
        let mut entries: Vec<DirEntryDescriptor> = Vec::new();
        core::mem::swap(&mut self.entries, &mut entries);
        entries.push(entry);
        assert(entries_view(entries@) =~= before.push(entry@));
        core::mem::swap(&mut self.entries, &mut entries);
        true
    }
}

} // verus!
