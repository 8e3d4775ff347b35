//! The registry: the node store, and the operations that the access rules
//! let through.
//!
//! Every operation that reads the caller's identity takes it as `caller`, and
//! every operation that notifies appends its notifications to `events`, in
//! the order in which it made the changes. Who calls the registry supplies
//! the one and delivers the other.

use vstd::prelude::*;
use vstd::set_lib::lemma_len_subset;
use crate::deriver::{derived_node, hash_node_and_label};
use crate::events::{ChangeManager, Event, NewOwner, NewResolver, NewTTL, Register, SubNode, Transfer};
use crate::model::RegistryState;
use crate::store::{
    account_entries, accounts_contains_key, accounts_get, accounts_insert, accounts_len,
    accounts_new, has_room, ttl_entries, ttls_get, ttls_insert, ttls_new, AccountMap, TtlMap,
    MAX_ENTRIES,
};
use crate::types::{AccountId, Error, Label, Node, Resolver};

verus! {

/// A name registry.
pub struct PeerName {
    /// The owner of each registered node.
    records: AccountMap,
    /// The resolver of each node that has one.
    resolvers: AccountMap,
    /// The time-to-live of each node that has one.
    ttls: TtlMap,
    /// Who may replace the manager.
    admin: AccountId,
    /// Who may register top-level nodes.
    manager: AccountId,
}

impl View for PeerName {
    type V = RegistryState;

    closed spec fn view(&self) -> RegistryState {
        RegistryState {
            owners: account_entries(self.records),
            resolvers: account_entries(self.resolvers),
            ttls: ttl_entries(self.ttls),
            admin: self.admin,
            manager: self.manager,
        }
    }
}

/// A map whose keys all lie in a finite map that holds `node`, and that is
/// no larger than a storage map can be, has room for `node`.
proof fn lemma_room_within<V, W>(inner: Map<Node, V>, outer: Map<Node, W>, node: Node)
    requires
        outer.dom().finite(),
        outer.len() <= MAX_ENTRIES,
        inner.dom().subset_of(outer.dom()),
        outer.contains_key(node),
    ensures
        inner.dom().finite(),
        has_room(inner, node),
{
    lemma_len_subset(inner.dom(), outer.dom());
    if !inner.contains_key(node) {
        assert(inner.dom().subset_of(outer.dom().remove(node)));
        lemma_len_subset(inner.dom(), outer.dom().remove(node));
    }
}

impl PeerName {
    #[verifier::type_invariant]
    spec fn well_formed(&self) -> bool {
        self@.wf()
    }

    /// A registry that holds no node, with the two roles.
    pub fn default(_admin: AccountId, _manager: AccountId) -> (registry: PeerName)
        ensures
            registry@ == RegistryState::new(_admin, _manager),
            registry@.wf(),
    {
        let records = accounts_new();
        let resolvers = accounts_new();
        let ttls = ttls_new();
        assert(account_entries(records) =~= Map::empty());
        assert(account_entries(resolvers) =~= Map::empty());
        assert(ttl_entries(ttls) =~= Map::empty());
        PeerName { records, resolvers, ttls, manager: _manager, admin: _admin }
    }

    /// Whether `caller` owns `node`.
    fn authorized(&self, caller: &AccountId, node: &Node) -> (allowed: bool)
        ensures
            allowed == self@.authorized(*caller, *node),
    {
        match accounts_get(&self.records, node) {
            Some(owner) => caller.same(&owner),
            None => false,
        }
    }

    /// Whether `node` is registered.
    pub fn is_domain_exist(&self, node: Node) -> (registered: bool)
        ensures
            registered == self@.is_registered(node),
            self@.wf(),
    {
        proof {
            use_type_invariant(self);
        }
        accounts_contains_key(&self.records, &node)
    }

    /// Whether `subnode` is registered.
    pub fn is_subdomain_exist(&self, subnode: Node) -> (registered: bool)
        ensures
            registered == self@.is_registered(subnode),
            self@.wf(),
    {
        proof {
            use_type_invariant(self);
        }
        accounts_contains_key(&self.records, &subnode)
    }

    /// Whether the registry holds as many nodes as it can. Where it does
    /// not, any node can be registered.
    pub fn is_full(&self) -> (full: bool)
        ensures
            full == self@.is_full(),
            self@.wf(),
    {
        proof {
            use_type_invariant(self);
        }
        accounts_len(&self.records) == MAX_ENTRIES
    }

    /// Sets the resolver and the time-to-live of `node`, each only where the
    /// node has none yet, and announces each that it set, if `caller` owns
    /// the node.
    ///
    /// Returns whether `caller` does. Where the node has both already, or
    /// `caller` is not the owner, nothing changes and nothing is announced,
    /// whatever the values given.
    #[allow(non_snake_case)]
    pub fn _setResolverAndTTL(
        &mut self,
        caller: AccountId,
        node: Node,
        resolver: Resolver,
        ttl: u64,
        events: &mut Vec<Event>,
    ) -> (done: bool)
        ensures
            final(self)@ == old(self)@.set_resolver_and_ttl(caller, node, resolver, ttl).state,
            final(events)@ == old(events)@ + old(self)@.set_resolver_and_ttl(
                caller,
                node,
                resolver,
                ttl,
            ).events,
            done == old(self)@.set_resolver_and_ttl(caller, node, resolver, ttl).result,
            done == (old(self)@.owner_of(node) == Some(caller)),
            old(self)@.resolvers.contains_key(node) && old(self)@.ttls.contains_key(node) ==> {
                &&& final(self)@ == old(self)@
                &&& final(events)@ == old(events)@
            },
            final(self)@.wf(),
    {
        proof {
            use_type_invariant(&*self);
        }
        if !self.authorized(&caller, &node) {
            return false;
        }
        proof {
            lemma_room_within(self@.resolvers, self@.owners, node);
            lemma_room_within(self@.ttls, self@.owners, node);
        }
        match accounts_get(&self.resolvers, &node) {
            Some(_) => {},
            None => {
                accounts_insert(&mut self.resolvers, node, resolver);
                events.push(Event::NewResolver(NewResolver { node, resolver }));
            },
        }
        match ttls_get(&self.ttls, &node) {
            Some(_) => {},
            None => {
                ttls_insert(&mut self.ttls, node, ttl);
                events.push(Event::NewTTL(NewTTL { node, ttl }));
            },
        }
        proof {
            use_type_invariant(&*self);
            assert(old(self)@.resolvers.contains_key(node) && old(self)@.ttls.contains_key(node)
                ==> self@ =~= old(self)@);
        }
        true
    }

    /// Gives `node` the owner `owner`, and the resolver and the time-to-live
    /// where it has none, with the notifications of each change. The
    /// ownership is announced with `actor` as the one who asked.
    fn write_record(
        &mut self,
        actor: AccountId,
        node: Node,
        owner: AccountId,
        resolver: Resolver,
        ttl: u64,
        events: &mut Vec<Event>,
    )
        requires
            old(self)@.has_room_for(node),
        ensures
            final(self)@ == old(self)@.write_record(actor, node, owner, resolver, ttl).state,
            final(events)@ == old(events)@ + old(self)@.write_record(
                actor,
                node,
                owner,
                resolver,
                ttl,
            ).events,
    {
        proof {
            use_type_invariant(&*self);
        }
        accounts_insert(&mut self.records, node, owner);
        events.push(Event::Transfer(Transfer { node, owner, actor }));
        // The node's owner is now `owner`, in whose name the rest is set.
        let _ = self._setResolverAndTTL(owner, node, resolver, ttl, events);
    }

    /// Registers the top-level node `node` with its owner, resolver and
    /// time-to-live.
    ///
    /// Only the manager may, or the call fails with `UnauthorizedCaller`.
    /// The node must be new, or the call fails with `NameAlreadyExists`. A
    /// call that fails changes nothing and announces nothing. One that
    /// succeeds announces the owner, the resolver, the time-to-live and the
    /// registration, in this order.
    ///
    /// The registry counts its nodes in 32 bits: where the call would add a
    /// node, the registry must not be full.
    pub fn register_domain(
        &mut self,
        caller: AccountId,
        node: Node,
        owner: AccountId,
        resolver: Resolver,
        ttl: u64,
        events: &mut Vec<Event>,
    ) -> (result: Result<(), Error>)
        requires
            caller == old(self)@.manager ==> old(self)@.has_room_for(node),
        ensures
            final(self)@ == old(self)@.register_domain(caller, node, owner, resolver, ttl).state,
            final(events)@ == old(events)@ + old(self)@.register_domain(
                caller,
                node,
                owner,
                resolver,
                ttl,
            ).events,
            result == old(self)@.register_domain(caller, node, owner, resolver, ttl).result,
            result is Ok <==> caller == old(self)@.manager && !old(self)@.is_registered(node),
            result is Ok ==> {
                &&& final(self)@.owner_of(node) == Some(owner)
                &&& final(self)@.resolver_of(node) == Some(resolver)
                &&& final(self)@.ttl_of(node) == ttl
                &&& final(events)@ == old(events)@ + seq![
                    Event::Transfer(Transfer { node, owner, actor: caller }),
                    Event::NewResolver(NewResolver { node, resolver }),
                    Event::NewTTL(NewTTL { node, ttl }),
                    Event::Register(Register { node, from: owner }),
                ]
            },
            final(self)@.wf(),
    {
        proof {
            use_type_invariant(&*self);
        }
        if !caller.same(&self.manager) {
            return Err(Error::UnauthorizedCaller);
        }
        if accounts_contains_key(&self.records, &node) {
            return Err(Error::NameAlreadyExists);
        }
        self.write_record(caller, node, owner, resolver, ttl, events);
        events.push(Event::Register(Register { node, from: owner }));
        proof {
            use_type_invariant(&*self);
            assert(!old(self)@.resolvers.contains_key(node));
            assert(!old(self)@.ttls.contains_key(node));
            assert(events@ =~= old(events)@ + seq![
                Event::Transfer(Transfer { node, owner, actor: caller }),
                Event::NewResolver(NewResolver { node, resolver }),
                Event::NewTTL(NewTTL { node, ttl }),
                Event::Register(Register { node, from: owner }),
            ]);
        }
        Ok(())
    }

    /// Registers `subnode` as the sub-node of `node` under `label`.
    ///
    /// The parent `node` must be registered, or the call fails with
    /// `NameNotExists`. The sub-node must be new, or the call fails with
    /// `NameAlreadyExists`: a registered node changes its owner only by its
    /// owner's doing. Nothing is asked of the caller, who is named in the
    /// announcement of the owner. A call that fails changes nothing and
    /// announces nothing.
    ///
    /// Where the call would add a node, the registry must not be full.
    pub fn register_subnode(
        &mut self,
        caller: AccountId,
        node: Node,
        label: Label,
        subnode: Node,
        owner: AccountId,
        resolver: Resolver,
        ttl: u64,
        events: &mut Vec<Event>,
    ) -> (result: Result<(), Error>)
        requires
            old(self)@.is_registered(node) ==> old(self)@.has_room_for(subnode),
        ensures
            final(self)@ == old(self)@.register_subnode(
                caller,
                node,
                label,
                subnode,
                owner,
                resolver,
                ttl,
            ).state,
            final(events)@ == old(events)@ + old(self)@.register_subnode(
                caller,
                node,
                label,
                subnode,
                owner,
                resolver,
                ttl,
            ).events,
            result == old(self)@.register_subnode(
                caller,
                node,
                label,
                subnode,
                owner,
                resolver,
                ttl,
            ).result,
            result is Ok <==> old(self)@.is_registered(node) && !old(self)@.is_registered(subnode),
            final(self)@.wf(),
    {
        proof {
            use_type_invariant(&*self);
        }
        if !accounts_contains_key(&self.records, &node) {
            return Err(Error::NameNotExists);
        }
        if accounts_contains_key(&self.records, &subnode) {
            return Err(Error::NameAlreadyExists);
        }
        accounts_insert(&mut self.records, subnode, owner);
        events.push(Event::SubNode(SubNode { node, label, subnode }));
        events.push(Event::NewOwner(NewOwner { node, label, owner, actor: caller }));
        // The sub-node's owner is now `owner`, in whose name the rest is set.
        let _ = self._setResolverAndTTL(owner, subnode, resolver, ttl, events);
        events.push(Event::Register(Register { node: subnode, from: owner }));
        proof {
            use_type_invariant(&*self);
        }
        Ok(())
    }

    /// Registers the sub-node of `node` under `label`: derives its
    /// identifier and registers it under that identifier as
    /// [`Self::register_subnode`] does.
    pub fn register_sub_domain(
        &mut self,
        caller: AccountId,
        node: Node,
        label: Label,
        owner: AccountId,
        resolver: Resolver,
        ttl: u64,
        events: &mut Vec<Event>,
    ) -> (result: Result<(), Error>)
        requires
            old(self)@.is_registered(node) ==> old(self)@.has_room_for(derived_node(node, label)),
        ensures
            final(self)@ == old(self)@.register_sub_domain(
                caller,
                node,
                label,
                owner,
                resolver,
                ttl,
            ).state,
            final(events)@ == old(events)@ + old(self)@.register_sub_domain(
                caller,
                node,
                label,
                owner,
                resolver,
                ttl,
            ).events,
            result == old(self)@.register_sub_domain(
                caller,
                node,
                label,
                owner,
                resolver,
                ttl,
            ).result,
            result is Ok <==> old(self)@.is_registered(node) && !old(self)@.is_registered(
                derived_node(node, label),
            ),
            final(self)@.wf(),
    {
        let subnode = hash_node_and_label(&node, &label);
        self.register_subnode(caller, node, label, subnode, owner, resolver, ttl, events)
    }

    /// Gives `node` the owner `owner`, and the resolver and the time-to-live
    /// where it has none, if `caller` owns the node.
    ///
    /// Returns whether it did. Where `caller` is not the owner, or the node
    /// is not registered, nothing changes and nothing is announced.
    pub fn set_record(
        &mut self,
        caller: AccountId,
        node: Node,
        owner: AccountId,
        resolver: Resolver,
        ttl: u64,
        events: &mut Vec<Event>,
    ) -> (done: bool)
        ensures
            final(self)@ == old(self)@.set_record(caller, node, owner, resolver, ttl).state,
            final(events)@ == old(events)@ + old(self)@.set_record(
                caller,
                node,
                owner,
                resolver,
                ttl,
            ).events,
            done == old(self)@.set_record(caller, node, owner, resolver, ttl).result,
            done == (old(self)@.owner_of(node) == Some(caller)),
            final(self)@.wf(),
    {
        proof {
            use_type_invariant(&*self);
        }
        if !self.authorized(&caller, &node) {
            return false;
        }
        self.write_record(caller, node, owner, resolver, ttl, events);
        proof {
            use_type_invariant(&*self);
        }
        true
    }

    /// Transfers `node` to `owner`, if `caller` owns the node.
    ///
    /// Returns whether it did. A transfer is announced once, with the node,
    /// the new owner and `caller` as the one who asked. Where `caller` is
    /// not the owner, or the node is not registered, nothing changes and
    /// nothing is announced.
    #[allow(non_snake_case)]
    pub fn setOwner(
        &mut self,
        caller: AccountId,
        node: Node,
        owner: AccountId,
        events: &mut Vec<Event>,
    ) -> (done: bool)
        ensures
            final(self)@ == old(self)@.transfer(caller, node, owner).state,
            final(events)@ == old(events)@ + old(self)@.transfer(caller, node, owner).events,
            done == old(self)@.transfer(caller, node, owner).result,
            done == (old(self)@.owner_of(node) == Some(caller)),
            done ==> final(events)@ == old(events)@.push(
                Event::Transfer(Transfer { node, owner, actor: caller }),
            ),
            !done ==> final(events)@ == old(events)@ && final(self)@ == old(self)@,
            final(self)@.wf(),
    {
        proof {
            use_type_invariant(&*self);
        }
        if !self.authorized(&caller, &node) {
            return false;
        }
        accounts_insert(&mut self.records, node, owner);
        events.push(Event::Transfer(Transfer { node, owner, actor: caller }));
        proof {
            use_type_invariant(&*self);
        }
        true
    }

    /// The manager.
    pub fn current_manager(&self) -> (manager: AccountId)
        ensures
            manager == self@.manager,
            self@.wf(),
    {
        proof {
            use_type_invariant(self);
        }
        self.manager
    }

    /// The admin.
    pub fn admin(&self) -> (admin: AccountId)
        ensures
            admin == self@.admin,
            self@.wf(),
    {
        proof {
            use_type_invariant(self);
        }
        self.admin
    }

    /// Makes `_manager` the manager, if `caller` is the admin.
    ///
    /// Any other caller gets `UnauthorizedCaller`, and nothing changes. A
    /// change is announced with the manager before it and the one after.
    pub fn change_manager(
        &mut self,
        caller: AccountId,
        _manager: AccountId,
        events: &mut Vec<Event>,
    ) -> (result: Result<(), Error>)
        ensures
            final(self)@ == old(self)@.change_manager(caller, _manager).state,
            final(events)@ == old(events)@ + old(self)@.change_manager(caller, _manager).events,
            result == old(self)@.change_manager(caller, _manager).result,
            result is Ok <==> caller == old(self)@.admin,
            final(self)@.wf(),
    {
        proof {
            use_type_invariant(&*self);
        }
        if !caller.same(&self.admin) {
            return Err(Error::UnauthorizedCaller);
        }
        let before = self.manager;
        self.manager = _manager;
        events.push(
            Event::ChangeManager(
                ChangeManager { _current_manager: Some(before), _new_manager: Some(_manager) },
            ),
        );
        Ok(())
    }

    /// The identifier of the sub-node of `node` under `label`. It depends on
    /// the two alone, not on the registry, and the call announces it.
    #[allow(non_snake_case)]
    pub fn get_Subnode(&self, node: Node, label: Label, events: &mut Vec<Event>) -> (subnode: Node)
        ensures
            subnode == derived_node(node, label),
            final(events)@ == old(events)@ + self@.derive(node, label).events,
            self@.wf(),
    {
        proof {
            use_type_invariant(self);
        }
        let subnode = hash_node_and_label(&node, &label);
        events.push(Event::SubNode(SubNode { node, label, subnode }));
        subnode
    }

    /// Gives `subnode`, as the sub-node of `node` under `label`, the owner
    /// `owner`.
    ///
    /// A sub-node that has an owner is given another only by that owner: for
    /// any other caller the call fails with `UnauthorizedCaller`, changes
    /// nothing and announces nothing. Of a sub-node that has no owner yet
    /// nothing is asked, neither of the caller nor of the parent. A call
    /// that succeeds announces the derivation and the owner, with `caller`
    /// as the one who asked.
    ///
    /// Where the call would add a node, the registry must not be full.
    pub fn assign_subnode(
        &mut self,
        caller: AccountId,
        node: Node,
        label: Label,
        subnode: Node,
        owner: AccountId,
        events: &mut Vec<Event>,
    ) -> (result: Result<(), Error>)
        requires
            old(self)@.has_room_for(subnode),
        ensures
            final(self)@ == old(self)@.assign_subnode(caller, node, label, subnode, owner).state,
            final(events)@ == old(events)@ + old(self)@.assign_subnode(
                caller,
                node,
                label,
                subnode,
                owner,
            ).events,
            result == old(self)@.assign_subnode(caller, node, label, subnode, owner).result,
            result is Ok <==> old(self)@.may_assign(caller, subnode),
            !(result is Ok) ==> final(self)@ == old(self)@ && final(events)@ == old(events)@,
            final(self)@.wf(),
    {
        proof {
            use_type_invariant(&*self);
        }
        match accounts_get(&self.records, &subnode) {
            Some(current) => {
                if !caller.same(&current) {
                    return Err(Error::UnauthorizedCaller);
                }
            },
            None => {},
        }
        accounts_insert(&mut self.records, subnode, owner);
        events.push(Event::SubNode(SubNode { node, label, subnode }));
        events.push(Event::NewOwner(NewOwner { node, label, owner, actor: caller }));
        proof {
            use_type_invariant(&*self);
        }
        Ok(())
    }

    /// Gives the sub-node of `node` under `label` the owner `owner`:
    /// derives its identifier and assigns it as [`Self::assign_subnode`]
    /// does. A sub-node that has an owner keeps it against any other caller.
    #[allow(non_snake_case)]
    pub fn set_Subnodeowner(
        &mut self,
        caller: AccountId,
        node: Node,
        label: Label,
        owner: AccountId,
        events: &mut Vec<Event>,
    ) -> (result: Result<(), Error>)
        requires
            old(self)@.has_room_for(derived_node(node, label)),
        ensures
            final(self)@ == old(self)@.set_subnode_owner(caller, node, label, owner).state,
            final(events)@ == old(events)@ + old(self)@.set_subnode_owner(
                caller,
                node,
                label,
                owner,
            ).events,
            result == old(self)@.set_subnode_owner(caller, node, label, owner).result,
            result is Ok <==> old(self)@.may_assign(caller, derived_node(node, label)),
            !(result is Ok) ==> final(self)@ == old(self)@ && final(events)@ == old(events)@,
            final(self)@.wf(),
    {
        let subnode = hash_node_and_label(&node, &label);
        self.assign_subnode(caller, node, label, subnode, owner, events)
    }

    /// The owner of `node`, and `None` if the node is not registered.
    pub fn owner(&self, node: Node) -> (owner: Option<AccountId>)
        ensures
            owner == self@.owner_of(node),
            self@.wf(),
    {
        proof {
            use_type_invariant(self);
        }
        accounts_get(&self.records, &node)
    }

    /// The resolver of `node`, and `None` if none was set.
    pub fn resolver(&self, node: Node) -> (resolver: Option<Resolver>)
        ensures
            resolver == self@.resolver_of(node),
            self@.wf(),
    {
        proof {
            use_type_invariant(self);
        }
        accounts_get(&self.resolvers, &node)
    }

    /// The time-to-live of `node`, and 0 if none was set.
    pub fn ttl(&self, node: Node) -> (ttl: u64)
        ensures
            ttl == self@.ttl_of(node),
            self@.wf(),
    {
        proof {
            use_type_invariant(self);
        }
        match ttls_get(&self.ttls, &node) {
            Some(ttl) => ttl,
            None => 0,
        }
    }
}

} // verus!
