use user_chroot::entry::{DirEntryDescriptor, DirListing, EntryKind};
use user_chroot::flags::MountFlags;
use user_chroot::plan::{Action, OnFailure, Step};
use user_chroot::store::{direct_store, merge, stash_outer_store, union_store};

fn bytes(text: &str) -> Vec<u8> {
    text.as_bytes().to_vec()
}

fn mount(source: &str, target: &str, fstype: &str, flags: MountFlags, data: Option<&str>) -> Action {
    Action {
        step: Step::Mount {
            source: bytes(source),
            target: bytes(target),
            fstype: bytes(fstype),
            flags,
            data: data.map(bytes),
        },
        on_failure: OnFailure::Abort,
    }
}

fn bind(source: &str, target: &str) -> Action {
    mount(source, target, "none", MountFlags::bind_recursive(), None)
}

fn fatal(step: Step) -> Action {
    Action { step, on_failure: OnFailure::Abort }
}

fn listing(dir: &str, entries: &[(&str, EntryKind)]) -> DirListing {
    let mut listing = DirListing::new(bytes(dir));
    for (name, kind) in entries {
        let entry = match kind {
            EntryKind::Directory => DirEntryDescriptor::directory(&bytes(dir), bytes(name)),
            EntryKind::RegularFile => DirEntryDescriptor::regular_file(&bytes(dir), bytes(name)),
            EntryKind::Symlink => DirEntryDescriptor::symlink(&bytes(dir), bytes(name), bytes("target")),
        };
        assert!(listing.insert(entry.unwrap()));
    }
    listing
}

fn sources(entries: &[DirEntryDescriptor]) -> Vec<(Vec<u8>, Vec<u8>)> {
    entries.iter().map(|e| (e.name().clone(), e.source_path().clone())).collect()
}

const D: EntryKind = EntryKind::Directory;
const F: EntryKind = EntryKind::RegularFile;
const L: EntryKind = EntryKind::Symlink;

#[test]
fn merge_without_outer_store_is_the_supplied_store() {
    let supplied = listing("/home/me/store", &[("aaa-hello", D), ("bbb-lib", D), ("ccc.drv", F)]);
    let outer = listing("/tmp/stash", &[]);
    let merged = merge(&supplied, &outer);
    assert_eq!(&merged, supplied.entries());
    assert_eq!(
        sources(&merged),
        vec![
            (bytes("aaa-hello"), bytes("/home/me/store/aaa-hello")),
            (bytes("bbb-lib"), bytes("/home/me/store/bbb-lib")),
            (bytes("ccc.drv"), bytes("/home/me/store/ccc.drv")),
        ]
    );
}

#[test]
fn merge_without_supplied_entries_is_the_outer_store() {
    let supplied = listing("/home/me/store", &[]);
    let outer = listing("/tmp/stash", &[("aaa-hello", D), ("zzz", L)]);
    assert_eq!(&merge(&supplied, &outer), outer.entries());
}

#[test]
fn merge_resolves_overlapping_names_to_the_supplied_store() {
    let supplied = listing("/d", &[("shared", D), ("only-new", F)]);
    let outer = listing("/o", &[("only-old", D), ("shared", D), ("other-old", L)]);
    let merged = merge(&supplied, &outer);
    assert_eq!(
        sources(&merged),
        vec![
            (bytes("shared"), bytes("/d/shared")),
            (bytes("only-new"), bytes("/d/only-new")),
            (bytes("only-old"), bytes("/o/only-old")),
            (bytes("other-old"), bytes("/o/other-old")),
        ]
    );
    assert_eq!(merged[0].kind(), D);
    assert_eq!(merged[1].kind(), F);
    assert_eq!(merged[2].kind(), D);
    assert_eq!(merged[3].kind(), L);
}

#[test]
fn merge_takes_the_supplied_kind_on_a_collision() {
    let supplied = listing("/d", &[("x", F)]);
    let outer = listing("/o", &[("x", D)]);
    let merged = merge(&supplied, &outer);
    assert_eq!(merged.len(), 1);
    assert_eq!(merged[0].kind(), F);
    assert_eq!(merged[0].source_path(), &bytes("/d/x"));
}

#[test]
fn merged_names_are_the_union_of_names() {
    let supplied = listing("/d", &[("a", D), ("b", D), ("c", D)]);
    let outer = listing("/o", &[("c", D), ("d", D), ("a", D), ("e", D)]);
    let merged = merge(&supplied, &outer);
    let mut names: Vec<Vec<u8>> = merged.iter().map(|e| e.name().clone()).collect();
    assert_eq!(names, vec![bytes("a"), bytes("b"), bytes("c"), bytes("d"), bytes("e")]);
    names.sort();
    names.dedup();
    assert_eq!(names.len(), merged.len());
}

#[test]
fn merging_again_changes_nothing() {
    let supplied = listing("/d", &[("shared", D), ("only-new", F)]);
    let outer = listing("/o", &[("only-old", D), ("shared", D)]);
    let once = merge(&supplied, &outer);
    let twice = merge(&supplied, &outer);
    assert_eq!(once, twice);
    // The union of the first run is the outer store of a second run.
    let mut nested = DirListing::new(bytes("/stash2"));
    for entry in &once {
        let copy = match entry.kind() {
            D => DirEntryDescriptor::directory(&bytes("/stash2"), entry.name().clone()),
            F => DirEntryDescriptor::regular_file(&bytes("/stash2"), entry.name().clone()),
            L => DirEntryDescriptor::symlink(&bytes("/stash2"), entry.name().clone(), bytes("t")),
        };
        assert!(nested.insert(copy.unwrap()));
    }
    let again = merge(&supplied, &nested);
    let names = |entries: &[DirEntryDescriptor]| -> Vec<Vec<u8>> {
        entries.iter().map(|e| e.name().clone()).collect()
    };
    assert_eq!(names(&again), names(&once));
    assert_eq!(again[0].source_path(), &bytes("/d/shared"));
    assert_eq!(again[1].source_path(), &bytes("/d/only-new"));
    assert_eq!(again[2].source_path(), &bytes("/stash2/only-old"));
}

#[test]
fn direct_store_mounts_the_supplied_directory() {
    assert_eq!(
        direct_store(&bytes("/home/me/store")),
        vec![
            mount("none", "/nix", "tmpfs", MountFlags::empty(), Some("mode=0755")),
            fatal(Step::CreateDir { path: bytes("/nix/store"), parents: true }),
            bind("/home/me/store", "/nix/store"),
        ]
    );
}

#[test]
fn outer_store_is_stashed_before_the_store_is_cleared() {
    assert_eq!(
        stash_outer_store(&bytes("/tmp/.tmpAbCd")),
        vec![
            bind("/nix/nix", "/nix"),
            bind("/nix/store", "/tmp/.tmpAbCd"),
            mount("none", "/nix/store", "tmpfs", MountFlags::empty(), Some("mode=0755")),
        ]
    );
}

#[test]
fn union_places_supplied_entries_first_and_ends_read_only() {
    let supplied = listing("/d", &[("shared", D), ("only-new", F), ("link", L)]);
    let outer = listing("/tmp/stash", &[("only-old", D), ("shared", D)]);
    let plan = union_store(&supplied, &outer, &bytes("/tmp/stash"));
    assert_eq!(
        plan,
        vec![
            fatal(Step::CreateDir { path: bytes("/nix/store/shared"), parents: false }),
            bind("/d/shared", "/nix/store/shared"),
            fatal(Step::CreateFile { path: bytes("/nix/store/only-new") }),
            bind("/d/only-new", "/nix/store/only-new"),
            fatal(Step::Symlink { target: bytes("target"), link: bytes("/nix/store/link") }),
            fatal(Step::CreateDir { path: bytes("/nix/store/only-old"), parents: false }),
            bind("/tmp/stash/only-old", "/nix/store/only-old"),
            mount("none", "/nix/store", "none", MountFlags::remount_read_only(), None),
            fatal(Step::ReleaseGuard { path: bytes("/tmp/stash") }),
        ]
    );
}

#[test]
fn union_of_empty_stores_is_still_made_read_only() {
    let supplied = listing("/d", &[]);
    let outer = listing("/tmp/stash", &[]);
    assert_eq!(
        union_store(&supplied, &outer, &bytes("/tmp/stash")),
        vec![
            mount(
                "none",
                "/nix/store",
                "none",
                MountFlags { bind: false, recursive: true, private: false, remount: true, read_only: true },
                None
            ),
            fatal(Step::ReleaseGuard { path: bytes("/tmp/stash") }),
        ]
    );
}
