//! File system paths as byte strings.

use vstd::prelude::*;
use vstd::slice::slice_to_vec;
use vstd::string::StringSliceAdditionalSpecFns;

verus! {

/// The byte that separates the components of a path.
pub const SEPARATOR: u8 = 47;

/// Whether `path` starts at the root.
pub open spec fn is_absolute(path: Seq<u8>) -> bool {
    path.len() > 0 && path[0] == SEPARATOR
}

/// Whether `name` can be the name of a directory entry: not empty, and free
/// of separators.
pub open spec fn is_component(name: Seq<u8>) -> bool {
    name.len() > 0 && forall|i: int| 0 <= i < name.len() ==> name[i] != SEPARATOR
}

/// `base` extended by `name`: an absolute `name` replaces `base`; otherwise
/// `name` follows `base`, after one separator unless `base` is empty or ends
/// in one already.
pub open spec fn spec_join(base: Seq<u8>, name: Seq<u8>) -> Seq<u8> {
    if is_absolute(name) {
        name
    } else if base.len() == 0 || base.last() == SEPARATOR {
        base + name
    } else {
        base.push(SEPARATOR) + name
    }
}

/// The bytes of a string.
pub fn bytes_of(s: &str) -> (bytes: Vec<u8>)
    ensures
        bytes@ == s.spec_bytes(),
{
    slice_to_vec(s.as_bytes())
}

/// A copy of `bytes`.
pub fn copy_bytes(bytes: &Vec<u8>) -> (copy: Vec<u8>)
    ensures
        copy@ == bytes@,
{
    slice_to_vec(bytes.as_slice())
}

/// Whether two byte strings hold the same bytes.
pub fn same_bytes(a: &Vec<u8>, b: &Vec<u8>) -> (same: bool)
    ensures
        same == (a@ == b@),
{
    if a.len() != b.len() {
        return false;
    }
    let mut i: usize = 0;
    while i < a.len()
        invariant
            a.len() == b.len(),
            i <= a.len(),
            forall|j: int| 0 <= j < i ==> a@[j] == b@[j],
        decreases a.len() - i,
    {
        if a[i] != b[i] {
            return false;
        }
        i += 1;
    }
    assert(a@ =~= b@);
    true
}

/// Whether `name` can be the name of a directory entry.
pub fn check_component(name: &Vec<u8>) -> (ok: bool)
    ensures
        ok == is_component(name@),
{
    if name.len() == 0 {
        return false;
    }
    let mut i: usize = 0;
    while i < name.len()
        invariant
            i <= name.len(),
            forall|j: int| 0 <= j < i ==> name@[j] != SEPARATOR,
        decreases name.len() - i,
    {
        if name[i] == SEPARATOR {
            return false;
        }
        i += 1;
    }
    true
}

/// `base` extended by `name`.
pub fn join(base: &Vec<u8>, name: &Vec<u8>) -> (joined: Vec<u8>)
    ensures
        joined@ == spec_join(base@, name@),
{
    if name.len() > 0 && name[0] == SEPARATOR {
        return copy_bytes(name);
    }
    let mut joined = copy_bytes(base);
    if base.len() > 0 && base[base.len() - 1] != SEPARATOR {
        joined.push(SEPARATOR);
    }
    let mut tail = copy_bytes(name);
    joined.append(&mut tail);
    joined
}

/// A component appended to a base is found again: two joins on one base
/// agree only where the components do.
pub proof fn lemma_join_injective(base: Seq<u8>, a: Seq<u8>, b: Seq<u8>)
    requires
        is_component(a),
        is_component(b),
        spec_join(base, a) == spec_join(base, b),
    ensures
        a == b,
{
    let prefix = if base.len() == 0 || base.last() == SEPARATOR {
        base
    } else {
        base.push(SEPARATOR)
    };
    assert(spec_join(base, a) == prefix + a);
    assert(spec_join(base, b) == prefix + b);
    assert((prefix + a).len() == (prefix + b).len());
    assert forall|i: int| 0 <= i < a.len() implies a[i] == b[i] by {
        assert((prefix + a)[prefix.len() + i] == a[i]);
        assert((prefix + b)[prefix.len() + i] == b[i]);
    }
    assert(a =~= b);
}

} // verus!
