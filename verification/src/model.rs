//! The registry as a state machine: its state as mathematical maps, and
//! each operation as a function from the state before it to the state after
//! it, the notifications it emits and what it returns.

use vstd::prelude::*;
use crate::deriver::derived_node;
use crate::events::{ChangeManager, Event, NewOwner, NewResolver, NewTTL, Register, SubNode, Transfer};
use crate::store::MAX_ENTRIES;
use crate::types::{AccountId, Error, Label, Node, Resolver};

verus! {

/// What a registry holds.
#[verifier::ext_equal]
pub struct RegistryState {
    /// The owner of each registered node. A node is registered exactly when
    /// it has an owner.
    pub owners: Map<Node, AccountId>,
    /// The resolver of each node that has one.
    pub resolvers: Map<Node, Resolver>,
    /// The time-to-live of each node that has one.
    pub ttls: Map<Node, u64>,
    /// Who may replace the manager.
    pub admin: AccountId,
    /// Who may register top-level nodes.
    pub manager: AccountId,
}

/// What one operation does.
#[verifier::ext_equal]
pub struct Step<R> {
    /// The state after the operation.
    pub state: RegistryState,
    /// The notifications that the operation emits, first to last.
    pub events: Seq<Event>,
    /// What the operation returns.
    pub result: R,
}

impl RegistryState {
    /// The registry as it is made: no node, and the two given roles.
    pub open spec fn new(admin: AccountId, manager: AccountId) -> RegistryState {
        RegistryState {
            owners: Map::empty(),
            resolvers: Map::empty(),
            ttls: Map::empty(),
            admin,
            manager,
        }
    }

    /// What holds of every registry: it has finitely many nodes, no more
    /// than its maps can count, and only a registered node has a resolver or
    /// a time-to-live.
    pub open spec fn wf(self) -> bool {
        &&& self.owners.dom().finite()
        &&& self.owners.len() <= MAX_ENTRIES
        &&& self.resolvers.dom().subset_of(self.owners.dom())
        &&& self.ttls.dom().subset_of(self.owners.dom())
    }

    /// Whether `node` is registered.
    pub open spec fn is_registered(self, node: Node) -> bool {
        self.owners.contains_key(node)
    }

    /// The owner of `node`, if it is registered.
    pub open spec fn owner_of(self, node: Node) -> Option<AccountId> {
        self.owners.get(node)
    }

    /// The resolver of `node`, if one was set.
    pub open spec fn resolver_of(self, node: Node) -> Option<Resolver> {
        self.resolvers.get(node)
    }

    /// The time-to-live of `node`, and 0 if none was set.
    pub open spec fn ttl_of(self, node: Node) -> u64 {
        if self.ttls.contains_key(node) {
            self.ttls[node]
        } else {
            0
        }
    }

    /// Whether `caller` may change the record of `node`: the node is
    /// registered and `caller` owns it.
    pub open spec fn authorized(self, caller: AccountId, node: Node) -> bool {
        self.owners.get(node) == Some(caller)
    }

    /// Whether the registry holds as many nodes as it can.
    pub open spec fn is_full(self) -> bool {
        self.owners.len() >= MAX_ENTRIES
    }

    /// Whether `node` can be given an owner: it has one already, or the
    /// registry is not full.
    pub open spec fn has_room_for(self, node: Node) -> bool {
        self.is_registered(node) || !self.is_full()
    }

    /// The state in which `node` has the owner `owner`.
    pub open spec fn with_owner(self, node: Node, owner: AccountId) -> RegistryState {
        RegistryState { owners: self.owners.insert(node, owner), ..self }
    }

    /// The state in which `node` has a resolver and a time-to-live: those it
    /// had, and the given ones where it had none.
    pub open spec fn with_resolver_and_ttl(self, node: Node, resolver: Resolver, ttl: u64)
        -> RegistryState {
        RegistryState {
            resolvers: if self.resolvers.contains_key(node) {
                self.resolvers
            } else {
                self.resolvers.insert(node, resolver)
            },
            ttls: if self.ttls.contains_key(node) {
                self.ttls
            } else {
                self.ttls.insert(node, ttl)
            },
            ..self
        }
    }

    /// The notifications of [`Self::with_resolver_and_ttl`]: one for the
    /// resolver if the node had none, then one for the time-to-live if the
    /// node had none.
    pub open spec fn resolver_and_ttl_events(self, node: Node, resolver: Resolver, ttl: u64)
        -> Seq<Event> {
        let for_resolver = if self.resolvers.contains_key(node) {
            Seq::<Event>::empty()
        } else {
            seq![Event::NewResolver(NewResolver { node, resolver })]
        };
        let for_ttl = if self.ttls.contains_key(node) {
            Seq::<Event>::empty()
        } else {
            seq![Event::NewTTL(NewTTL { node, ttl })]
        };
        for_resolver + for_ttl
    }

    /// Writing a record on behalf of `actor`: `node` gets the owner `owner`,
    /// and the resolver and the time-to-live where it had none.
    pub open spec fn write_record(
        self,
        actor: AccountId,
        node: Node,
        owner: AccountId,
        resolver: Resolver,
        ttl: u64,
    ) -> Step<()> {
        Step {
            state: self.with_owner(node, owner).with_resolver_and_ttl(node, resolver, ttl),
            events: seq![Event::Transfer(Transfer { node, owner, actor })]
                + self.resolver_and_ttl_events(node, resolver, ttl),
            result: (),
        }
    }

    /// An operation that is refused: the state stays, nothing is emitted.
    pub open spec fn refused<R>(self, result: R) -> Step<R> {
        Step { state: self, events: Seq::empty(), result }
    }

    /// Registering a top-level node. Only the manager may; the node must be
    /// new. Then its record is written and the registration announced.
    pub open spec fn register_domain(
        self,
        caller: AccountId,
        node: Node,
        owner: AccountId,
        resolver: Resolver,
        ttl: u64,
    ) -> Step<Result<(), Error>> {
        if caller != self.manager {
            self.refused(Err(Error::UnauthorizedCaller))
        } else if self.is_registered(node) {
            self.refused(Err(Error::NameAlreadyExists))
        } else {
            let written = self.write_record(caller, node, owner, resolver, ttl);
            Step {
                state: written.state,
                events: written.events.push(Event::Register(Register { node, from: owner })),
                result: Ok(()),
            }
        }
    }

    /// Changing a record: only the owner of a registered node may. Then the
    /// record is written.
    pub open spec fn set_record(
        self,
        caller: AccountId,
        node: Node,
        owner: AccountId,
        resolver: Resolver,
        ttl: u64,
    ) -> Step<bool> {
        if !self.authorized(caller, node) {
            self.refused(false)
        } else {
            let written = self.write_record(caller, node, owner, resolver, ttl);
            Step { state: written.state, events: written.events, result: true }
        }
    }

    /// Setting the resolver and the time-to-live of a node: only the owner
    /// of a registered node may. Then each is set where the node had none,
    /// and stays where it had one.
    pub open spec fn set_resolver_and_ttl(
        self,
        caller: AccountId,
        node: Node,
        resolver: Resolver,
        ttl: u64,
    ) -> Step<bool> {
        if !self.authorized(caller, node) {
            self.refused(false)
        } else {
            Step {
                state: self.with_resolver_and_ttl(node, resolver, ttl),
                events: self.resolver_and_ttl_events(node, resolver, ttl),
                result: true,
            }
        }
    }

    /// Transferring a node: only its owner may.
    pub open spec fn transfer(self, caller: AccountId, node: Node, owner: AccountId) -> Step<bool> {
        if !self.authorized(caller, node) {
            self.refused(false)
        } else {
            Step {
                state: self.with_owner(node, owner),
                events: seq![Event::Transfer(Transfer { node, owner, actor: caller })],
                result: true,
            }
        }
    }

    /// Replacing the manager: only the admin may.
    pub open spec fn change_manager(self, caller: AccountId, manager: AccountId) -> Step<
        Result<(), Error>,
    > {
        if caller != self.admin {
            self.refused(Err(Error::UnauthorizedCaller))
        } else {
            Step {
                state: RegistryState { manager, ..self },
                events: seq![
                    Event::ChangeManager(
                        ChangeManager {
                            _current_manager: Some(self.manager),
                            _new_manager: Some(manager),
                        },
                    ),
                ],
                result: Ok(()),
            }
        }
    }

    /// Deriving the sub-node of `node` under `label`. The state stays, and
    /// the derivation is announced.
    pub open spec fn derive(self, node: Node, label: Label) -> Step<Node> {
        let subnode = derived_node(node, label);
        Step {
            state: self,
            events: seq![Event::SubNode(SubNode { node, label, subnode })],
            result: subnode,
        }
    }

    /// Whether `caller` may give `subnode` an owner: the sub-node has none
    /// yet, or `caller` is the one it has.
    pub open spec fn may_assign(self, caller: AccountId, subnode: Node) -> bool {
        !self.is_registered(subnode) || self.authorized(caller, subnode)
    }

    /// Giving `subnode`, as the sub-node of `node` under `label`, the owner
    /// `owner`. A sub-node that has an owner is given another only by that
    /// owner; of a sub-node that has none, nothing is asked. The derivation
    /// and the new owner are announced.
    pub open spec fn assign_subnode(
        self,
        caller: AccountId,
        node: Node,
        label: Label,
        subnode: Node,
        owner: AccountId,
    ) -> Step<Result<(), Error>> {
        if !self.may_assign(caller, subnode) {
            self.refused(Err(Error::UnauthorizedCaller))
        } else {
            Step {
                state: self.with_owner(subnode, owner),
                events: seq![
                    Event::SubNode(SubNode { node, label, subnode }),
                    Event::NewOwner(NewOwner { node, label, owner, actor: caller }),
                ],
                result: Ok(()),
            }
        }
    }

    /// Giving the sub-node that `node` and `label` derive the owner `owner`.
    pub open spec fn set_subnode_owner(
        self,
        caller: AccountId,
        node: Node,
        label: Label,
        owner: AccountId,
    ) -> Step<Result<(), Error>> {
        self.assign_subnode(caller, node, label, derived_node(node, label), owner)
    }

    /// Registering `subnode` as the sub-node of `node` under `label`. The
    /// parent must be registered and the sub-node new; nothing is asked of
    /// the caller. The sub-node's record is written, and the derivation, the
    /// owner, the resolver, the time-to-live and the registration are
    /// announced.
    pub open spec fn register_subnode(
        self,
        caller: AccountId,
        node: Node,
        label: Label,
        subnode: Node,
        owner: AccountId,
        resolver: Resolver,
        ttl: u64,
    ) -> Step<Result<(), Error>> {
        if !self.is_registered(node) {
            self.refused(Err(Error::NameNotExists))
        } else if self.is_registered(subnode) {
            self.refused(Err(Error::NameAlreadyExists))
        } else {
            Step {
                state: self.with_owner(subnode, owner).with_resolver_and_ttl(
                    subnode,
                    resolver,
                    ttl,
                ),
                events: (seq![
                    Event::SubNode(SubNode { node, label, subnode }),
                    Event::NewOwner(NewOwner { node, label, owner, actor: caller }),
                ] + self.resolver_and_ttl_events(subnode, resolver, ttl)).push(
                    Event::Register(Register { node: subnode, from: owner }),
                ),
                result: Ok(()),
            }
        }
    }

    /// Registering the sub-node that `node` and `label` derive.
    pub open spec fn register_sub_domain(
        self,
        caller: AccountId,
        node: Node,
        label: Label,
        owner: AccountId,
        resolver: Resolver,
        ttl: u64,
    ) -> Step<Result<(), Error>> {
        self.register_subnode(
            caller,
            node,
            label,
            derived_node(node, label),
            owner,
            resolver,
            ttl,
        )
    }
}

} // verus!
