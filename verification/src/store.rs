//! The node store's collections.
//!
//! The registry keeps its records in storage hash maps of `ink_storage`. Such
//! a map is generic over traits that the verifier does not know, so each of
//! the two maps in use is held in a struct of this module, and every method
//! that the registry calls on it has a function here whose contract is
//! believed, not proved.

use vstd::prelude::*;
use crate::types::{AccountId, Node};

verus! {

/// The most entries that a storage hash map can hold: it counts them in a
/// `u32`, and one more entry than this would overflow the count.
pub const MAX_ENTRIES: u32 = 0xffff_ffff;

/// A storage hash map from nodes to accounts
/// (`ink_storage::collections::HashMap<ink_env::Hash, ink_env::AccountId>`).
///
/// The only way to make one is [`accounts_new`], so the map is never bound to
/// a storage key and all it holds is in memory.
#[verifier::external_body]
pub struct AccountMap {
    inner: ink_storage::collections::HashMap<ink_env::Hash, ink_env::AccountId>,
}

/// A storage hash map from nodes to time-to-live values
/// (`ink_storage::collections::HashMap<ink_env::Hash, u64>`).
///
/// The only way to make one is [`ttls_new`], so the map is never bound to a
/// storage key and all it holds is in memory.
#[verifier::external_body]
pub struct TtlMap {
    inner: ink_storage::collections::HashMap<ink_env::Hash, u64>,
}

/// The key-value pairs that an [`AccountMap`] holds, each key and value
/// written as the 32 bytes that the `ink_env` type wraps.
pub uninterp spec fn account_entries(m: AccountMap) -> Map<Node, AccountId>;

/// The key-value pairs that a [`TtlMap`] holds, each key written as the 32
/// bytes that `ink_env::Hash` wraps.
pub uninterp spec fn ttl_entries(m: TtlMap) -> Map<Node, u64>;

/// Whether a map with the entries `entries` takes a value under `node`
/// without counting past [`MAX_ENTRIES`].
pub open spec fn has_room<V>(entries: Map<Node, V>, node: Node) -> bool {
    entries.contains_key(node) || entries.len() < MAX_ENTRIES
}

/// `HashMap::new`: a new map, which holds nothing.
#[verifier::external_body]
pub(crate) fn accounts_new() -> (m: AccountMap)
    ensures
        account_entries(m).is_empty(),
{
    AccountMap { inner: ink_storage::collections::HashMap::new() }
}

/// `HashMap::len`: the number of key-value pairs in the map.
#[verifier::external_body]
pub(crate) fn accounts_len(m: &AccountMap) -> (count: u32)
    ensures
        count == account_entries(*m).len(),
{
    m.inner.len()
}

/// `HashMap::contains_key`: whether the map holds a value under the key.
#[verifier::external_body]
pub(crate) fn accounts_contains_key(m: &AccountMap, node: &Node) -> (present: bool)
    ensures
        present == account_entries(*m).contains_key(*node),
{
    m.inner.contains_key(&ink_env::Hash::from(node.0))
}

/// `HashMap::get`: the value stored under the key, if there is one, as the
/// 32 bytes of the `ink_env::AccountId`.
#[verifier::external_body]
pub(crate) fn accounts_get(m: &AccountMap, node: &Node) -> (found: Option<AccountId>)
    ensures
        found == account_entries(*m).get(*node),
{
    match m.inner.get(&ink_env::Hash::from(node.0)) {
        Some(account) => {
            let bytes: &[u8; 32] = account.as_ref();
            Some(AccountId(*bytes))
        },
        None => None,
    }
}

/// `HashMap::insert`: afterwards the map holds `account` under `node`, in
/// place of what it held there, and every other entry as before. The value
/// that the call hands back, the one replaced, is dropped.
///
/// A new key raises the map's `u32` count of entries by one, which must not
/// overflow: the map must have room for the key. With room the call does not
/// panic, which `no_unwind` says.
#[verifier::external_body]
pub(crate) fn accounts_insert(m: &mut AccountMap, node: Node, account: AccountId)
    requires
        account_entries(*old(m)).dom().finite(),
        has_room(account_entries(*old(m)), node),
    ensures
        account_entries(*final(m)) == account_entries(*old(m)).insert(node, account),
    no_unwind
{
    m.inner.insert(ink_env::Hash::from(node.0), ink_env::AccountId::from(account.0));
}

/// `HashMap::new`: a new map, which holds nothing.
#[verifier::external_body]
pub(crate) fn ttls_new() -> (m: TtlMap)
    ensures
        ttl_entries(m).is_empty(),
{
    TtlMap { inner: ink_storage::collections::HashMap::new() }
}

/// `HashMap::get`: the value stored under the key, if there is one.
#[verifier::external_body]
pub(crate) fn ttls_get(m: &TtlMap, node: &Node) -> (found: Option<u64>)
    ensures
        found == ttl_entries(*m).get(*node),
{
    match m.inner.get(&ink_env::Hash::from(node.0)) {
        Some(ttl) => Some(*ttl),
        None => None,
    }
}

/// `HashMap::insert`: afterwards the map holds `ttl` under `node`, in place
/// of what it held there, and every other entry as before. The value that
/// the call hands back, the one replaced, is dropped.
///
/// A new key raises the map's `u32` count of entries by one, which must not
/// overflow: the map must have room for the key. With room the call does not
/// panic, which `no_unwind` says.
#[verifier::external_body]
pub(crate) fn ttls_insert(m: &mut TtlMap, node: Node, ttl: u64)
    requires
        ttl_entries(*old(m)).dom().finite(),
        has_room(ttl_entries(*old(m)), node),
    ensures
        ttl_entries(*final(m)) == ttl_entries(*old(m)).insert(node, ttl),
    no_unwind
{
    m.inner.insert(ink_env::Hash::from(node.0), ttl);
}

} // verus!
