//! Identities, node identifiers and the error taxonomy.

use vstd::prelude::*;

verus! {

/// The identity of an account: 32 opaque bytes.
#[derive(Clone, Copy, Debug, PartialEq, Eq)]
pub struct AccountId(pub [u8; 32]);

/// The identifier of a node: 32 opaque bytes, the registry's primary key.
#[derive(Clone, Copy, Debug, PartialEq, Eq)]
pub struct Node(pub [u8; 32]);

/// What a name resolves to. Its meaning lies outside the registry.
pub type Resolver = AccountId;

/// One path segment under a parent node.
pub type Label = [u8; 32];

/// Why an operation was refused.
///
/// The registry itself returns `UnauthorizedCaller`, `NameAlreadyExists` and
/// `NameNotExists`. The other variants keep their places so that the
/// position of each variant, by which an error is encoded, stays fixed.
#[derive(Clone, Copy, Debug, PartialEq, Eq, Structural)]
pub enum Error {
    NotOwner,
    NotApproved,
    TokenExists,
    TokenNotFound,
    CannotInsert,
    CannotRemove,
    CannotFetchValue,
    NotAllowed,
    /// The caller lacks the role that the operation asks for.
    UnauthorizedCaller,
    /// Returned if the name already exists upon registration.
    NameAlreadyExists,
    /// Returned if the name does not exist where one is required.
    NameNotExists,
    /// Returned if the caller is not the owner while required to be.
    CallerIsNotOwner,
}

/// Whether two 32-byte values hold the same bytes.
pub fn same_bytes(a: &[u8; 32], b: &[u8; 32]) -> (same: bool)
    ensures
        same == (*a == *b),
{
    let mut i: usize = 0;
    while i < 32
        invariant
            i <= 32,
            forall|j: int| 0 <= j < i ==> a[j] == b[j],
        decreases 32 - i,
    {
        if a[i] != b[i] {
            return false;
        }
        i += 1;
    }
    assert(*a =~= *b);
    true
}

impl AccountId {
    /// Whether `self` and `other` are the same identity.
    pub fn same(&self, other: &AccountId) -> (same: bool)
        ensures
            same == (*self == *other),
    {
        same_bytes(&self.0, &other.0)
    }
}

impl Node {
    /// Whether `self` and `other` are the same node identifier.
    pub fn same(&self, other: &Node) -> (same: bool)
        ensures
            same == (*self == *other),
    {
        same_bytes(&self.0, &other.0)
    }
}

} // verus!
