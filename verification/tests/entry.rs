use user_chroot::entry::{DirEntryDescriptor, DirListing, EntryKind};

fn dir(name: &str) -> DirEntryDescriptor {
    DirEntryDescriptor::directory(&b"/nix".to_vec(), name.as_bytes().to_vec()).unwrap()
}

#[test]
fn classify_prefers_directory_then_file_then_link() {
    assert_eq!(EntryKind::classify(true, false, false), Some(EntryKind::Directory));
    assert_eq!(EntryKind::classify(false, true, false), Some(EntryKind::RegularFile));
    assert_eq!(EntryKind::classify(false, false, true), Some(EntryKind::Symlink));
    assert_eq!(EntryKind::classify(true, true, true), Some(EntryKind::Directory));
    assert_eq!(EntryKind::classify(false, true, true), Some(EntryKind::RegularFile));
}

#[test]
fn classify_passes_over_other_kinds() {
    assert_eq!(EntryKind::classify(false, false, false), None);
}

#[test]
fn directory_descriptor() {
    let entry = DirEntryDescriptor::directory(&b"/nix".to_vec(), b"etc".to_vec()).unwrap();
    assert_eq!(entry.name(), &b"etc".to_vec());
    assert_eq!(entry.kind(), EntryKind::Directory);
    assert_eq!(entry.source_path(), &b"/nix/etc".to_vec());
    assert_eq!(entry.link_target(), None);
}

#[test]
fn regular_file_descriptor() {
    let entry = DirEntryDescriptor::regular_file(&b"/nix".to_vec(), b"vmlinuz".to_vec()).unwrap();
    assert_eq!(entry.name(), &b"vmlinuz".to_vec());
    assert_eq!(entry.kind(), EntryKind::RegularFile);
    assert_eq!(entry.source_path(), &b"/nix/vmlinuz".to_vec());
    assert_eq!(entry.link_target(), None);
}

#[test]
fn symlink_descriptor() {
    let entry =
        DirEntryDescriptor::symlink(&b"/nix".to_vec(), b"bin".to_vec(), b"usr/bin".to_vec())
            .unwrap();
    assert_eq!(entry.name(), &b"bin".to_vec());
    assert_eq!(entry.kind(), EntryKind::Symlink);
    assert_eq!(entry.source_path(), &b"/nix/bin".to_vec());
    assert_eq!(entry.link_target(), Some(&b"usr/bin".to_vec()));
}

#[test]
fn descriptor_needs_a_single_component() {
    let root = b"/nix".to_vec();
    assert_eq!(DirEntryDescriptor::directory(&root, Vec::new()), None);
    assert_eq!(DirEntryDescriptor::directory(&root, b"a/b".to_vec()), None);
    assert_eq!(DirEntryDescriptor::regular_file(&root, b"/etc".to_vec()), None);
    assert_eq!(DirEntryDescriptor::symlink(&root, b"x/".to_vec(), b"y".to_vec()), None);
}

#[test]
fn duplicate_is_equal() {
    let entry =
        DirEntryDescriptor::symlink(&b"/nix".to_vec(), b"bin".to_vec(), b"usr/bin".to_vec())
            .unwrap();
    assert_eq!(entry.duplicate(), entry);
    assert_eq!(dir("etc").duplicate(), dir("etc"));
}

#[test]
fn new_listing_is_empty() {
    let listing = DirListing::new(b"/nix".to_vec());
    assert_eq!(listing.dir(), &b"/nix".to_vec());
    assert_eq!(listing.len(), 0);
    assert_eq!(listing.entry(0), None);
    assert!(listing.entries().is_empty());
    assert!(!listing.contains_name(&b"etc".to_vec()));
}

#[test]
fn listing_keeps_the_order_of_insertion() {
    let mut listing = DirListing::new(b"/nix".to_vec());
    assert!(listing.insert(dir("usr")));
    assert!(listing.insert(dir("etc")));
    assert!(listing.insert(dir("bin")));
    assert_eq!(listing.len(), 3);
    assert_eq!(listing.entry(0), Some(&dir("usr")));
    assert_eq!(listing.entry(1), Some(&dir("etc")));
    assert_eq!(listing.entry(2), Some(&dir("bin")));
    assert_eq!(listing.entry(3), None);
    assert_eq!(listing.entries(), &vec![dir("usr"), dir("etc"), dir("bin")]);
    assert!(listing.contains_name(&b"etc".to_vec()));
    assert!(!listing.contains_name(&b"et".to_vec()));
}

#[test]
fn listing_refuses_a_second_entry_of_a_name() {
    let mut listing = DirListing::new(b"/nix".to_vec());
    assert!(listing.insert(dir("etc")));
    let again = DirEntryDescriptor::regular_file(&b"/nix".to_vec(), b"etc".to_vec()).unwrap();
    assert!(!listing.insert(again));
    assert_eq!(listing.len(), 1);
    assert_eq!(listing.entry(0), Some(&dir("etc")));
}

#[test]
fn listing_refuses_an_entry_of_another_directory() {
    let mut listing = DirListing::new(b"/nix".to_vec());
    let foreign = DirEntryDescriptor::directory(&b"/tmp".to_vec(), b"etc".to_vec()).unwrap();
    assert!(!listing.insert(foreign));
    assert_eq!(listing.len(), 0);
}
