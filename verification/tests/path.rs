use std::path::Path;
use user_chroot::path::{bytes_of, check_component, copy_bytes, join, same_bytes, SEPARATOR};

fn std_join(base: &str, name: &str) -> Vec<u8> {
    Path::new(base).join(name).to_str().unwrap().as_bytes().to_vec()
}

#[test]
fn separator_is_a_slash() {
    assert_eq!(SEPARATOR, b'/');
}

#[test]
fn join_adds_one_separator() {
    assert_eq!(join(&b"/tmp/root".to_vec(), &b"nix".to_vec()), b"/tmp/root/nix".to_vec());
}

#[test]
fn join_on_the_root_adds_none() {
    assert_eq!(join(&b"/".to_vec(), &b"etc".to_vec()), b"/etc".to_vec());
    assert_eq!(join(&b"/nix/".to_vec(), &b"store".to_vec()), b"/nix/store".to_vec());
}

#[test]
fn join_on_nothing_is_the_name() {
    assert_eq!(join(&Vec::new(), &b"etc".to_vec()), b"etc".to_vec());
}

#[test]
fn join_with_an_absolute_name_is_the_name() {
    assert_eq!(join(&b"/tmp/root".to_vec(), &b"/etc".to_vec()), b"/etc".to_vec());
}

#[test]
fn join_with_an_empty_name_ends_in_a_separator() {
    assert_eq!(join(&b"/tmp".to_vec(), &Vec::new()), b"/tmp/".to_vec());
}

#[test]
fn join_agrees_with_std() {
    let bases = ["", "/", "/nix", "/nix/", "relative", "/a/b"];
    let names = ["x", "store", "/abs", "a/b", ".hidden", ""];
    for base in bases {
        for name in names {
            assert_eq!(
                join(&base.as_bytes().to_vec(), &name.as_bytes().to_vec()),
                std_join(base, name),
                "{:?} joined with {:?}",
                base,
                name
            );
        }
    }
}

#[test]
fn components_have_no_separator() {
    assert!(check_component(&b"nix".to_vec()));
    assert!(check_component(&b"..".to_vec()));
    assert!(!check_component(&Vec::new()));
    assert!(!check_component(&b"/".to_vec()));
    assert!(!check_component(&b"a/b".to_vec()));
    assert!(!check_component(&b"/nix".to_vec()));
    assert!(!check_component(&b"nix/".to_vec()));
}

#[test]
fn bytes_are_compared_by_content() {
    assert!(same_bytes(&b"nix".to_vec(), &b"nix".to_vec()));
    assert!(same_bytes(&Vec::new(), &Vec::new()));
    assert!(!same_bytes(&b"nix".to_vec(), &b"nix2".to_vec()));
    assert!(!same_bytes(&b"nix".to_vec(), &b"nic".to_vec()));
    assert!(!same_bytes(&b"nix".to_vec(), &Vec::new()));
}

#[test]
fn bytes_of_a_string_are_its_utf8() {
    assert_eq!(bytes_of("/nix"), b"/nix".to_vec());
    assert_eq!(bytes_of(""), Vec::<u8>::new());
    assert_eq!(bytes_of("\u{e9}"), vec![0xc3, 0xa9]);
    assert_eq!(copy_bytes(&vec![0, 255, 47]), vec![0, 255, 47]);
}
