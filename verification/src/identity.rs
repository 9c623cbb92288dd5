//! The identity that the caller keeps inside the new user namespace.

use vstd::prelude::*;
use vstd::string::StringSliceAdditionalSpecFns;
use crate::path::bytes_of;

verus! {

/// The decimal digits of `n`, most significant first, without leading zeros.
pub open spec fn spec_decimal(n: nat) -> Seq<u8>
    decreases n,
{
    if n < 10 {
        seq![(48 + n) as u8]
    } else {
        spec_decimal(n / 10).push((48 + n % 10) as u8)
    }
}

/// One line of an id map that maps the single id `id` to itself: the id
/// inside, the id outside, and the length of the range, which is 1.
pub open spec fn spec_identity_line(id: u32) -> Seq<u8> {
    spec_decimal(id as nat) + " ".spec_bytes() + spec_decimal(id as nat) + " 1".spec_bytes()
}

/// The decimal digits of `n`.
pub fn decimal(n: u32) -> (digits: Vec<u8>)
    ensures
        digits@ == spec_decimal(n as nat),
    decreases n,
{
    if n < 10 {
        let mut digits: Vec<u8> = Vec::new();
        digits.push(48 + n as u8);
        assert(digits@ =~= seq![(48 + n) as u8]);
        digits
    } else {
        let mut digits = decimal(n / 10);
        digits.push(48 + (n % 10) as u8);
        digits
    }
}

/// The line that maps the single id `id` to itself.
pub fn identity_line(id: u32) -> (line: Vec<u8>)
    ensures
        line@ == spec_identity_line(id),
{
    let mut line = decimal(id);
    let mut space = bytes_of(" ");
    line.append(&mut space);
    let mut outside = decimal(id);
    line.append(&mut outside);
    let mut length = bytes_of(" 1");
    line.append(&mut length);
    line
}

/// Trusted: `nix::unistd::getuid`, read with `as_raw`. It cannot fail, and
/// nothing is claimed of the id that it gives.
#[verifier::external_body]
fn real_uid() -> (uid: u32) {
    nix::unistd::getuid().as_raw()
}

/// Trusted: `nix::unistd::getgid`, read with `as_raw`. It cannot fail, and
/// nothing is claimed of the id that it gives.
#[verifier::external_body]
fn real_gid() -> (gid: u32) {
    nix::unistd::getgid().as_raw()
}

/// The user and the group that are mapped one to one between the outer and
/// the inner namespace.
#[derive(Clone, Copy, PartialEq, Eq, Debug, Structural)]
pub struct NamespaceIdentityMapping {
    /// The user id, the same on both sides.
    pub uid: u32,
    /// The group id, the same on both sides.
    pub gid: u32,
}

impl NamespaceIdentityMapping {
    /// The mapping that keeps `uid` and `gid`.
    pub fn new(uid: u32, gid: u32) -> (mapping: NamespaceIdentityMapping)
        ensures
            mapping == (NamespaceIdentityMapping { uid, gid }),
    {
        NamespaceIdentityMapping { uid, gid }
    }

    /// The mapping that keeps the real user and group of the calling
    /// process, as they are at the time of the call: it is to be taken
    /// before the process leaves its user namespace.
    pub fn of_caller() -> (mapping: NamespaceIdentityMapping) {
        NamespaceIdentityMapping::new(real_uid(), real_gid())
    }

    /// The content of the user id map.
    pub open spec fn spec_uid_map(self) -> Seq<u8> {
        spec_identity_line(self.uid)
    }

    /// The content of the group id map.
    pub open spec fn spec_gid_map(self) -> Seq<u8> {
        spec_identity_line(self.gid)
    }

    /// The content of the user id map: one range, of length 1.
    pub fn uid_map(&self) -> (content: Vec<u8>)
        ensures
            content@ == self.spec_uid_map(),
    {
        identity_line(self.uid)
    }

    /// The content of the group id map: one range, of length 1.
    pub fn gid_map(&self) -> (content: Vec<u8>)
        ensures
            content@ == self.spec_gid_map(),
    {
        identity_line(self.gid)
    }
}

/// The number that a string of decimal digits stands for.
pub open spec fn spec_value(digits: Seq<u8>) -> nat
    decreases digits.len(),
{
    if digits.len() == 0 {
        0
    } else {
        (spec_value(digits.drop_last()) * 10 + (digits.last() - 48)) as nat
    }
}

/// The digits of a number stand for that number.
pub proof fn lemma_decimal_round_trip(n: nat)
    ensures
        spec_value(spec_decimal(n)) == n,
    decreases n,
{
    if n < 10 {
        let digits = spec_decimal(n);
        assert(digits.drop_last() =~= Seq::<u8>::empty());
        assert(spec_value(digits.drop_last()) == 0);
    } else {
        lemma_decimal_round_trip(n / 10);
        lemma_decimal_is_digits(n / 10);
        let front = spec_decimal(n / 10);
        let digits = spec_decimal(n);
        assert(digits.drop_last() =~= front);
        assert(digits.last() == (48 + n % 10) as u8);
    }
}

/// The digits of a number are digits, there is at least one, and the first
/// is a zero only for the number zero.
pub proof fn lemma_decimal_is_digits(n: nat)
    ensures
        spec_decimal(n).len() >= 1,
        forall|i: int| 0 <= i < spec_decimal(n).len() ==> 48 <= #[trigger] spec_decimal(n)[i] <= 57,
        n > 0 ==> spec_decimal(n)[0] != 48,
    decreases n,
{
    if n >= 10 {
        lemma_decimal_is_digits(n / 10);
    }
}

} // verus!
