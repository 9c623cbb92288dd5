//! The fixed paths of the namespace.
//!
//! After the pivot the new root is `/`, and the old root is reachable below
//! it under the relocation name. The store lives in the directory of that
//! same name, so the old root is hidden again once the store is in place.

use vstd::prelude::*;
use vstd::string::{is_ascii_spec_bytes, StringSliceAdditionalSpecFns};
use crate::path::{bytes_of, is_component, join, same_bytes, spec_join, SEPARATOR};

verus! {

/// The root of the namespace.
pub open spec fn spec_new_root() -> Seq<u8> {
    "/".spec_bytes()
}

/// The name under which the old root is reachable after the pivot, which is
/// also the name of the directory that holds the store.
pub open spec fn spec_relocation_name() -> Seq<u8> {
    "nix".spec_bytes()
}

/// The name of the store in its parent directory.
pub open spec fn spec_store_name() -> Seq<u8> {
    "store".spec_bytes()
}

/// Where the old root is reachable after the pivot; later, the parent of
/// the store.
pub open spec fn spec_relocated_root() -> Seq<u8> {
    spec_join(spec_new_root(), spec_relocation_name())
}

/// The path of the store in the namespace.
pub open spec fn spec_store_path() -> Seq<u8> {
    spec_join(spec_relocated_root(), spec_store_name())
}

/// The parent of a store that an outer instance has set up, as seen through
/// the relocated old root.
pub open spec fn spec_outer_store_parent() -> Seq<u8> {
    spec_join(spec_relocated_root(), spec_relocation_name())
}

/// The store that an outer instance has set up, as seen through the
/// relocated old root.
pub open spec fn spec_outer_store_path() -> Seq<u8> {
    spec_join(spec_outer_store_parent(), spec_store_name())
}

/// The file that switches off the setting of groups.
pub open spec fn spec_setgroups_file() -> Seq<u8> {
    "/proc/self/setgroups".spec_bytes()
}

/// The word that switches off the setting of groups.
pub open spec fn spec_setgroups_deny() -> Seq<u8> {
    "deny".spec_bytes()
}

/// The file that takes the user id map.
pub open spec fn spec_uid_map_file() -> Seq<u8> {
    "/proc/self/uid_map".spec_bytes()
}

/// The file that takes the group id map.
pub open spec fn spec_gid_map_file() -> Seq<u8> {
    "/proc/self/gid_map".spec_bytes()
}

/// The root of the namespace.
pub fn new_root() -> (path: Vec<u8>)
    ensures
        path@ == spec_new_root(),
{
    bytes_of("/")
}

/// The name under which the old root is reachable after the pivot.
pub fn relocation_name() -> (name: Vec<u8>)
    ensures
        name@ == spec_relocation_name(),
{
    bytes_of("nix")
}

/// The name of the store in its parent directory.
pub fn store_name() -> (name: Vec<u8>)
    ensures
        name@ == spec_store_name(),
{
    bytes_of("store")
}

/// Where the old root is reachable after the pivot.
pub fn relocated_root() -> (path: Vec<u8>)
    ensures
        path@ == spec_relocated_root(),
{
    join(&new_root(), &relocation_name())
}

/// The path of the store in the namespace.
pub fn store_path() -> (path: Vec<u8>)
    ensures
        path@ == spec_store_path(),
{
    join(&relocated_root(), &store_name())
}

/// The parent of a store that an outer instance has set up.
pub fn outer_store_parent() -> (path: Vec<u8>)
    ensures
        path@ == spec_outer_store_parent(),
{
    join(&relocated_root(), &relocation_name())
}

/// The store that an outer instance has set up. An outer instance is at
/// work exactly when this path exists once the tree has been mirrored.
pub fn outer_store_path() -> (path: Vec<u8>)
    ensures
        path@ == spec_outer_store_path(),
{
    join(&outer_store_parent(), &store_name())
}

/// Whether `name` is the relocation name, whose entry is never mirrored.
pub fn is_relocation_name(name: &Vec<u8>) -> (is: bool)
    ensures
        is == (name@ == spec_relocation_name()),
{
    same_bytes(name, &relocation_name())
}

/// The fixed paths, spelled out.
pub proof fn lemma_layout_spelled_out()
    ensures
        is_component(spec_relocation_name()),
        is_component(spec_store_name()),
        spec_new_root() == seq![SEPARATOR],
        spec_relocated_root() == "/nix".spec_bytes(),
        spec_store_path() == "/nix/store".spec_bytes(),
        spec_outer_store_parent() == "/nix/nix".spec_bytes(),
        spec_outer_store_path() == "/nix/nix/store".spec_bytes(),
{
    reveal_strlit("/");
    reveal_strlit("nix");
    reveal_strlit("store");
    reveal_strlit("/nix");
    reveal_strlit("/nix/store");
    reveal_strlit("/nix/nix");
    reveal_strlit("/nix/nix/store");
    is_ascii_spec_bytes("/");
    is_ascii_spec_bytes("nix");
    is_ascii_spec_bytes("store");
    is_ascii_spec_bytes("/nix");
    is_ascii_spec_bytes("/nix/store");
    is_ascii_spec_bytes("/nix/nix");
    is_ascii_spec_bytes("/nix/nix/store");
    assert(spec_new_root() =~= seq![SEPARATOR]);
    assert(spec_relocated_root() =~= "/nix".spec_bytes());
    assert(spec_store_path() =~= "/nix/store".spec_bytes());
    assert(spec_outer_store_parent() =~= "/nix/nix".spec_bytes());
    assert(spec_outer_store_path() =~= "/nix/nix/store".spec_bytes());
}

} // verus!
