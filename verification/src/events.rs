//! The notifications that the registry emits when its state changes.

use vstd::prelude::*;
use crate::types::{AccountId, Label, Node, Resolver};

verus! {

/// A sub-node was given an owner: the parent node, the label under it, the
/// new owner, and who asked for it.
#[derive(Clone, Copy, Debug, PartialEq, Eq)]
pub struct NewOwner {
    pub node: Node,
    pub label: Label,
    pub owner: AccountId,
    pub actor: AccountId,
}

/// A sub-node was derived: the parent node, the label, and the identifier
/// that the two give.
#[derive(Clone, Copy, Debug, PartialEq, Eq)]
pub struct SubNode {
    pub node: Node,
    pub label: Label,
    pub subnode: Node,
}

/// A node's resolver was set.
#[derive(Clone, Copy, Debug, PartialEq, Eq)]
pub struct NewResolver {
    pub node: Node,
    pub resolver: Resolver,
}

/// A node's time-to-live was set.
#[derive(Clone, Copy, Debug, PartialEq, Eq)]
pub struct NewTTL {
    pub node: Node,
    pub ttl: u64,
}

/// A node's ownership changed: the node, its new owner, and who asked for
/// it.
#[derive(Clone, Copy, Debug, PartialEq, Eq)]
pub struct Transfer {
    pub node: Node,
    pub owner: AccountId,
    pub actor: AccountId,
}

/// The admin replaced the manager: the manager before and the one after.
#[derive(Clone, Copy, Debug, PartialEq, Eq)]
pub struct ChangeManager {
    pub _current_manager: Option<AccountId>,
    pub _new_manager: Option<AccountId>,
}

/// A name was registered: the node and the account it was registered for.
#[derive(Clone, Copy, Debug, PartialEq, Eq)]
pub struct Register {
    pub node: Node,
    pub from: AccountId,
}

/// An address changed. The registry defines this notification and never
/// emits it.
#[derive(Clone, Copy, Debug, PartialEq, Eq)]
pub struct SetAddress {
    pub name: Node,
    pub from: AccountId,
    pub old_address: Option<AccountId>,
    pub new_address: AccountId,
}

/// One notification, of any kind.
#[derive(Clone, Copy, Debug, PartialEq, Eq)]
pub enum Event {
    NewOwner(NewOwner),
    SubNode(SubNode),
    NewResolver(NewResolver),
    NewTTL(NewTTL),
    Transfer(Transfer),
    ChangeManager(ChangeManager),
    Register(Register),
    SetAddress(SetAddress),
}

} // verus!
