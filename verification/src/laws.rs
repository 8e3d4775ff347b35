//! What holds of the registry's operations, whatever the state and the
//! arguments. Each statement is about the operations of
//! [`RegistryState`], to which the contracts of [`crate::registry::PeerName`]
//! tie what the registry does.

use vstd::prelude::*;
use crate::events::{
    ChangeManager, Event, NewOwner, NewResolver, NewTTL, Register, SubNode, Transfer,
};
use crate::model::RegistryState;
use crate::types::{AccountId, Error, Label, Node, Resolver};

verus! {

/// A registry as it is made is well formed and holds no node.
pub proof fn lemma_new_is_well_formed(admin: AccountId, manager: AccountId)
    ensures
        RegistryState::new(admin, manager).wf(),
        forall|node: Node| !RegistryState::new(admin, manager).is_registered(node),
        RegistryState::new(admin, manager).admin == admin,
        RegistryState::new(admin, manager).manager == manager,
{
}

/// Deriving a sub-node gives the same identifier whenever the parent and the
/// label are the same, whatever the registry holds, and leaves the registry
/// as it was.
pub proof fn lemma_derivation_is_deterministic(
    one: RegistryState,
    other: RegistryState,
    node: Node,
    label: Label,
    same_node: Node,
    same_label: Label,
)
    requires
        node == same_node,
        label == same_label,
    ensures
        one.derive(node, label).result == other.derive(same_node, same_label).result,
        one.derive(node, label).state == one,
{
}

/// Registering a node that is registered already fails with
/// `NameAlreadyExists`, changes nothing and announces nothing. The caller is
/// the manager: any other is refused for that reason first.
pub proof fn lemma_registered_node_is_not_registered_again(
    state: RegistryState,
    caller: AccountId,
    node: Node,
    owner: AccountId,
    resolver: Resolver,
    ttl: u64,
)
    requires
        caller == state.manager,
        state.is_registered(node),
    ensures
        state.register_domain(caller, node, owner, resolver, ttl).result == Err::<(), Error>(
            Error::NameAlreadyExists,
        ),
        state.register_domain(caller, node, owner, resolver, ttl).state == state,
        state.register_domain(caller, node, owner, resolver, ttl).events == Seq::<Event>::empty(),
{
}

/// Registering a node by anyone but the manager fails with
/// `UnauthorizedCaller`, changes nothing and announces nothing.
pub proof fn lemma_only_the_manager_registers(
    state: RegistryState,
    caller: AccountId,
    node: Node,
    owner: AccountId,
    resolver: Resolver,
    ttl: u64,
)
    requires
        caller != state.manager,
    ensures
        state.register_domain(caller, node, owner, resolver, ttl).result == Err::<(), Error>(
            Error::UnauthorizedCaller,
        ),
        state.register_domain(caller, node, owner, resolver, ttl).state == state,
        state.register_domain(caller, node, owner, resolver, ttl).events == Seq::<Event>::empty(),
{
}

/// Registration succeeds exactly when the manager registers a new node.
pub proof fn lemma_when_registration_succeeds(
    state: RegistryState,
    caller: AccountId,
    node: Node,
    owner: AccountId,
    resolver: Resolver,
    ttl: u64,
)
    ensures
        state.register_domain(caller, node, owner, resolver, ttl).result is Ok <==> caller
            == state.manager && !state.is_registered(node),
{
}

/// After the manager has registered a new node, the node has the owner, the
/// resolver and the time-to-live that it was registered with. The
/// registration announces the owner once, the resolver once and the
/// time-to-live once, each for this node, and then the registration itself.
pub proof fn lemma_registration_is_observable(
    state: RegistryState,
    caller: AccountId,
    node: Node,
    owner: AccountId,
    resolver: Resolver,
    ttl: u64,
)
    requires
        state.wf(),
        caller == state.manager,
        !state.is_registered(node),
    ensures
        ({
            let step = state.register_domain(caller, node, owner, resolver, ttl);
            &&& step.result == Ok::<(), Error>(())
            &&& step.state.is_registered(node)
            &&& step.state.owner_of(node) == Some(owner)
            &&& step.state.resolver_of(node) == Some(resolver)
            &&& step.state.ttl_of(node) == ttl
            &&& step.events == seq![
                Event::Transfer(Transfer { node, owner, actor: caller }),
                Event::NewResolver(NewResolver { node, resolver }),
                Event::NewTTL(NewTTL { node, ttl }),
                Event::Register(Register { node, from: owner }),
            ]
        }),
{
    let step = state.register_domain(caller, node, owner, resolver, ttl);
    assert(!state.resolvers.contains_key(node));
    assert(!state.ttls.contains_key(node));
    assert(step.events =~= seq![
        Event::Transfer(Transfer { node, owner, actor: caller }),
        Event::NewResolver(NewResolver { node, resolver }),
        Event::NewTTL(NewTTL { node, ttl }),
        Event::Register(Register { node, from: owner }),
    ]);
}

/// Registration leaves every other node's record as it was.
pub proof fn lemma_registration_touches_one_node(
    state: RegistryState,
    caller: AccountId,
    node: Node,
    owner: AccountId,
    resolver: Resolver,
    ttl: u64,
    other: Node,
)
    requires
        other != node,
    ensures
        ({
            let after = state.register_domain(caller, node, owner, resolver, ttl).state;
            &&& after.owner_of(other) == state.owner_of(other)
            &&& after.resolver_of(other) == state.resolver_of(other)
            &&& after.ttl_of(other) == state.ttl_of(other)
            &&& after.admin == state.admin
            &&& after.manager == state.manager
        }),
{
}

/// Once a node has a resolver and a time-to-live, setting them again,
/// with whatever values and by whatever caller, changes nothing and
/// announces nothing.
pub proof fn lemma_resolver_and_ttl_are_set_once(
    state: RegistryState,
    caller: AccountId,
    node: Node,
    resolver: Resolver,
    ttl: u64,
)
    requires
        state.resolvers.contains_key(node),
        state.ttls.contains_key(node),
    ensures
        state.with_resolver_and_ttl(node, resolver, ttl) == state,
        state.resolver_and_ttl_events(node, resolver, ttl) == Seq::<Event>::empty(),
        state.set_resolver_and_ttl(caller, node, resolver, ttl).state == state,
        state.set_resolver_and_ttl(caller, node, resolver, ttl).events == Seq::<Event>::empty(),
{
    assert(state.with_resolver_and_ttl(node, resolver, ttl) =~= state);
}

/// After the owner has set the resolver and the time-to-live of a node, the
/// node has both, and a second call with other values keeps the first: it
/// changes nothing and announces nothing.
pub proof fn lemma_second_setting_keeps_the_first(
    state: RegistryState,
    caller: AccountId,
    node: Node,
    first_resolver: Resolver,
    first_ttl: u64,
    again: AccountId,
    resolver: Resolver,
    ttl: u64,
)
    requires
        state.authorized(caller, node),
    ensures
        ({
            let first = state.set_resolver_and_ttl(caller, node, first_resolver, first_ttl).state;
            let second = first.set_resolver_and_ttl(again, node, resolver, ttl);
            &&& first.resolver_of(node) is Some
            &&& first.ttls.contains_key(node)
            &&& state.resolver_of(node) is None ==> first.resolver_of(node) == Some(first_resolver)
            &&& !state.ttls.contains_key(node) ==> first.ttl_of(node) == first_ttl
            &&& second.state == first
            &&& second.events == Seq::<Event>::empty()
        }),
{
    let first = state.set_resolver_and_ttl(caller, node, first_resolver, first_ttl).state;
    lemma_resolver_and_ttl_are_set_once(first, again, node, resolver, ttl);
}

/// Only the owner of a node sets its resolver and its time-to-live: the
/// call is let through exactly when the caller owns the node, and one that
/// is not changes nothing and announces nothing. No call changes an owner.
pub proof fn lemma_only_the_owner_sets_resolver_and_ttl(
    state: RegistryState,
    caller: AccountId,
    node: Node,
    resolver: Resolver,
    ttl: u64,
)
    ensures
        state.set_resolver_and_ttl(caller, node, resolver, ttl).result == (state.owner_of(node)
            == Some(caller)),
        state.owner_of(node) != Some(caller) ==> {
            &&& state.set_resolver_and_ttl(caller, node, resolver, ttl).state == state
            &&& state.set_resolver_and_ttl(caller, node, resolver, ttl).events == Seq::<
                Event,
            >::empty()
        },
        state.set_resolver_and_ttl(caller, node, resolver, ttl).state.owners == state.owners,
{
}

/// Writing a node's record a second time, through the owner's call, keeps
/// the resolver and the time-to-live of the first time: the second call
/// announces the owner if it is let through, and nothing else.
pub proof fn lemma_second_record_keeps_the_first(
    state: RegistryState,
    first_actor: AccountId,
    node: Node,
    first_owner: AccountId,
    first_resolver: Resolver,
    first_ttl: u64,
    caller: AccountId,
    owner: AccountId,
    resolver: Resolver,
    ttl: u64,
)
    ensures
        ({
            let first = state.write_record(
                first_actor,
                node,
                first_owner,
                first_resolver,
                first_ttl,
            ).state;
            let second = first.set_record(caller, node, owner, resolver, ttl);
            &&& first.resolver_of(node) is Some
            &&& first.ttls.contains_key(node)
            &&& second.state.resolver_of(node) == first.resolver_of(node)
            &&& second.state.ttl_of(node) == first.ttl_of(node)
            &&& second.state.resolvers == first.resolvers
            &&& second.state.ttls == first.ttls
            &&& second.result == (caller == first_owner)
            &&& second.events == if caller == first_owner {
                seq![Event::Transfer(Transfer { node, owner, actor: caller })]
            } else {
                Seq::<Event>::empty()
            }
        }),
{
    let first = state.write_record(first_actor, node, first_owner, first_resolver, first_ttl).state;
    let second = first.set_record(caller, node, owner, resolver, ttl);
    assert(first.owner_of(node) == Some(first_owner));
    if caller == first_owner {
        assert(second.events =~= seq![Event::Transfer(Transfer { node, owner, actor: caller })]);
    }
}

/// The owner's call to write a record is let through exactly when the
/// caller owns the node, and a call that is not changes nothing.
pub proof fn lemma_only_the_owner_writes_the_record(
    state: RegistryState,
    caller: AccountId,
    node: Node,
    owner: AccountId,
    resolver: Resolver,
    ttl: u64,
)
    ensures
        state.set_record(caller, node, owner, resolver, ttl).result == (state.owner_of(node)
            == Some(caller)),
        state.owner_of(node) != Some(caller) ==> {
            &&& state.set_record(caller, node, owner, resolver, ttl).state == state
            &&& state.set_record(caller, node, owner, resolver, ttl).events == Seq::<
                Event,
            >::empty()
        },
{
}

/// A node is transferred exactly when its owner asks for it. Then the node
/// has the new owner, which is announced once, with the node, the new owner
/// and the caller as the one who asked, and no other record changes.
/// Any other caller's attempt leaves the registry as it was.
pub proof fn lemma_only_the_owner_transfers(
    state: RegistryState,
    caller: AccountId,
    node: Node,
    owner: AccountId,
)
    ensures
        state.transfer(caller, node, owner).result == (state.owner_of(node) == Some(caller)),
        state.owner_of(node) == Some(caller) ==> {
            &&& state.transfer(caller, node, owner).state.owner_of(node) == Some(owner)
            &&& state.transfer(caller, node, owner).state.resolvers == state.resolvers
            &&& state.transfer(caller, node, owner).state.ttls == state.ttls
            &&& state.transfer(caller, node, owner).events == seq![
                Event::Transfer(Transfer { node, owner, actor: caller }),
            ]
            &&& forall|other: Node|
                other != node ==> state.transfer(caller, node, owner).state.owner_of(other)
                    == state.owner_of(other)
        },
        state.owner_of(node) != Some(caller) ==> {
            &&& state.transfer(caller, node, owner).state == state
            &&& state.transfer(caller, node, owner).events == Seq::<Event>::empty()
        },
{
}

/// The manager changes exactly when the admin asks for it. Then the new
/// manager is in place, and one notification carries the manager before and
/// the one after. Any other caller gets `UnauthorizedCaller`, and the
/// registry stays as it was.
pub proof fn lemma_only_the_admin_changes_the_manager(
    state: RegistryState,
    caller: AccountId,
    manager: AccountId,
)
    ensures
        state.change_manager(caller, manager).result is Ok <==> caller == state.admin,
        caller == state.admin ==> {
            &&& state.change_manager(caller, manager).state.manager == manager
            &&& state.change_manager(caller, manager).state.admin == state.admin
            &&& state.change_manager(caller, manager).state.owners == state.owners
            &&& state.change_manager(caller, manager).state.resolvers == state.resolvers
            &&& state.change_manager(caller, manager).state.ttls == state.ttls
            &&& state.change_manager(caller, manager).events == seq![
                Event::ChangeManager(
                    ChangeManager {
                        _current_manager: Some(state.manager),
                        _new_manager: Some(manager),
                    },
                ),
            ]
        },
        caller != state.admin ==> {
            &&& state.change_manager(caller, manager).result == Err::<(), Error>(
                Error::UnauthorizedCaller,
            )
            &&& state.change_manager(caller, manager).state == state
            &&& state.change_manager(caller, manager).events == Seq::<Event>::empty()
        },
{
}

/// Registering a sub-node fails with `NameNotExists` exactly when the parent
/// is not registered, and with `NameAlreadyExists` exactly when the parent
/// is registered and the sub-node is too. A call that fails changes nothing
/// and announces nothing. Nothing is asked of the caller: with the parent
/// registered and the sub-node new, the call succeeds, and the sub-node then
/// has the given owner.
pub proof fn lemma_sub_domain_needs_its_parent(
    state: RegistryState,
    caller: AccountId,
    node: Node,
    label: Label,
    owner: AccountId,
    resolver: Resolver,
    ttl: u64,
)
    ensures
        ({
            let step = state.register_sub_domain(caller, node, label, owner, resolver, ttl);
            let subnode = state.derive(node, label).result;
            &&& step.result == Err::<(), Error>(Error::NameNotExists) <==> !state.is_registered(node)
            &&& step.result == Err::<(), Error>(Error::NameAlreadyExists) <==> state.is_registered(
                node,
            ) && state.is_registered(subnode)
            &&& step.result is Ok <==> state.is_registered(node) && !state.is_registered(subnode)
            &&& step.result is Err ==> step.state == state && step.events == Seq::<Event>::empty()
            &&& step.result is Ok ==> {
                &&& step.state.owner_of(subnode) == Some(owner)
                &&& step.state.owner_of(node) == state.owner_of(node)
            }
        }),
{
}

/// After a sub-node has been registered in a well-formed registry, it has
/// the resolver and the time-to-live that it was registered with.
pub proof fn lemma_sub_domain_registration_is_observable(
    state: RegistryState,
    caller: AccountId,
    node: Node,
    label: Label,
    subnode: Node,
    owner: AccountId,
    resolver: Resolver,
    ttl: u64,
)
    requires
        state.wf(),
        state.is_registered(node),
        !state.is_registered(subnode),
    ensures
        ({
            let step = state.register_subnode(caller, node, label, subnode, owner, resolver, ttl);
            &&& step.result == Ok::<(), Error>(())
            &&& step.state.owner_of(subnode) == Some(owner)
            &&& step.state.resolver_of(subnode) == Some(resolver)
            &&& step.state.ttl_of(subnode) == ttl
        }),
{
    assert(!state.resolvers.contains_key(subnode));
    assert(!state.ttls.contains_key(subnode));
}

/// A node that has an owner keeps it, whatever is called, unless that owner
/// is the caller: no operation lets anyone else replace the owner of a
/// registered node.
pub proof fn lemma_an_owner_is_replaced_by_the_owner_only(
    state: RegistryState,
    caller: AccountId,
    node: Node,
    label: Label,
    subnode: Node,
    owner: AccountId,
    resolver: Resolver,
    ttl: u64,
    held: Node,
)
    requires
        state.is_registered(held),
        state.owner_of(held) != Some(caller),
    ensures
        state.register_domain(caller, node, owner, resolver, ttl).state.owner_of(held)
            == state.owner_of(held),
        state.register_subnode(caller, node, label, subnode, owner, resolver, ttl).state.owner_of(
            held,
        ) == state.owner_of(held),
        state.register_sub_domain(caller, node, label, owner, resolver, ttl).state.owner_of(held)
            == state.owner_of(held),
        state.assign_subnode(caller, node, label, subnode, owner).state.owner_of(held)
            == state.owner_of(held),
        state.set_subnode_owner(caller, node, label, owner).state.owner_of(held) == state.owner_of(
            held,
        ),
        state.set_record(caller, node, owner, resolver, ttl).state.owner_of(held) == state.owner_of(
            held,
        ),
        state.set_resolver_and_ttl(caller, node, resolver, ttl).state.owner_of(held)
            == state.owner_of(held),
        state.transfer(caller, node, owner).state.owner_of(held) == state.owner_of(held),
        state.change_manager(caller, owner).state.owner_of(held) == state.owner_of(held),
        state.derive(node, label).state.owner_of(held) == state.owner_of(held),
{
}

/// Giving a sub-node an owner succeeds exactly when the sub-node has none
/// yet or the caller is the one it has. Then the sub-node has the given
/// owner, and the derivation and the owner are announced, the owner with the
/// caller as the one who asked. Otherwise the call fails with
/// `UnauthorizedCaller`, changes nothing and announces nothing.
pub proof fn lemma_when_a_sub_node_is_assigned(
    state: RegistryState,
    caller: AccountId,
    node: Node,
    label: Label,
    subnode: Node,
    owner: AccountId,
)
    ensures
        ({
            let step = state.assign_subnode(caller, node, label, subnode, owner);
            &&& step.result is Ok <==> state.owner_of(subnode) is None || state.owner_of(subnode)
                == Some(caller)
            &&& step.result is Ok ==> {
                &&& step.state.owner_of(subnode) == Some(owner)
                &&& step.state.resolvers == state.resolvers
                &&& step.state.ttls == state.ttls
                &&& step.events == seq![
                    Event::SubNode(SubNode { node, label, subnode }),
                    Event::NewOwner(NewOwner { node, label, owner, actor: caller }),
                ]
            }
            &&& step.result is Err ==> {
                &&& step.result == Err::<(), Error>(Error::UnauthorizedCaller)
                &&& step.state == state
                &&& step.events == Seq::<Event>::empty()
            }
        }),
{
}

/// No operation removes a node: one that is registered stays registered.
pub proof fn lemma_registered_nodes_stay(
    state: RegistryState,
    caller: AccountId,
    node: Node,
    label: Label,
    subnode: Node,
    owner: AccountId,
    resolver: Resolver,
    ttl: u64,
    registered: Node,
)
    requires
        state.is_registered(registered),
    ensures
        state.register_domain(caller, node, owner, resolver, ttl).state.is_registered(registered),
        state.register_subnode(
            caller,
            node,
            label,
            subnode,
            owner,
            resolver,
            ttl,
        ).state.is_registered(registered),
        state.register_sub_domain(caller, node, label, owner, resolver, ttl).state.is_registered(
            registered,
        ),
        state.set_record(caller, node, owner, resolver, ttl).state.is_registered(registered),
        state.set_resolver_and_ttl(caller, node, resolver, ttl).state.is_registered(registered),
        state.transfer(caller, node, owner).state.is_registered(registered),
        state.change_manager(caller, owner).state.is_registered(registered),
        state.assign_subnode(caller, node, label, subnode, owner).state.is_registered(registered),
        state.set_subnode_owner(caller, node, label, owner).state.is_registered(registered),
{
}

/// The admin never changes, and only `change_manager` changes the manager.
pub proof fn lemma_roles_change_by_one_operation(
    state: RegistryState,
    caller: AccountId,
    node: Node,
    label: Label,
    subnode: Node,
    owner: AccountId,
    resolver: Resolver,
    ttl: u64,
)
    ensures
        state.register_domain(caller, node, owner, resolver, ttl).state.admin == state.admin,
        state.register_domain(caller, node, owner, resolver, ttl).state.manager == state.manager,
        state.register_subnode(caller, node, label, subnode, owner, resolver, ttl).state.admin
            == state.admin,
        state.register_subnode(caller, node, label, subnode, owner, resolver, ttl).state.manager
            == state.manager,
        state.set_record(caller, node, owner, resolver, ttl).state.admin == state.admin,
        state.set_record(caller, node, owner, resolver, ttl).state.manager == state.manager,
        state.set_resolver_and_ttl(caller, node, resolver, ttl).state.admin == state.admin,
        state.set_resolver_and_ttl(caller, node, resolver, ttl).state.manager == state.manager,
        state.transfer(caller, node, owner).state.admin == state.admin,
        state.transfer(caller, node, owner).state.manager == state.manager,
        state.assign_subnode(caller, node, label, subnode, owner).state.admin == state.admin,
        state.assign_subnode(caller, node, label, subnode, owner).state.manager == state.manager,
        state.change_manager(caller, owner).state.admin == state.admin,
{
}

/// Writing the record of a node that the registry has room for keeps the
/// registry well formed.
pub proof fn lemma_writing_a_record_keeps_well_formedness(
    state: RegistryState,
    actor: AccountId,
    node: Node,
    owner: AccountId,
    resolver: Resolver,
    ttl: u64,
)
    requires
        state.wf(),
        state.has_room_for(node),
    ensures
        state.with_owner(node, owner).wf(),
        state.with_owner(node, owner).with_resolver_and_ttl(node, resolver, ttl).wf(),
        state.write_record(actor, node, owner, resolver, ttl).state.wf(),
{
}

/// Every operation keeps the registry well formed, where the registry has
/// room for the node that the operation may add.
pub proof fn lemma_operations_keep_well_formedness(
    state: RegistryState,
    caller: AccountId,
    node: Node,
    label: Label,
    subnode: Node,
    owner: AccountId,
    resolver: Resolver,
    ttl: u64,
)
    requires
        state.wf(),
    ensures
        state.has_room_for(node) ==> state.register_domain(
            caller,
            node,
            owner,
            resolver,
            ttl,
        ).state.wf(),
        state.has_room_for(subnode) ==> state.register_subnode(
            caller,
            node,
            label,
            subnode,
            owner,
            resolver,
            ttl,
        ).state.wf(),
        state.has_room_for(subnode) ==> state.assign_subnode(
            caller,
            node,
            label,
            subnode,
            owner,
        ).state.wf(),
        state.has_room_for(state.derive(node, label).result) ==> state.register_sub_domain(
            caller,
            node,
            label,
            owner,
            resolver,
            ttl,
        ).state.wf(),
        state.has_room_for(state.derive(node, label).result) ==> state.set_subnode_owner(
            caller,
            node,
            label,
            owner,
        ).state.wf(),
        state.set_record(caller, node, owner, resolver, ttl).state.wf(),
        state.set_resolver_and_ttl(caller, node, resolver, ttl).state.wf(),
        state.transfer(caller, node, owner).state.wf(),
        state.change_manager(caller, owner).state.wf(),
        state.derive(node, label).state.wf(),
{
    let derived = state.derive(node, label).result;
    if state.has_room_for(node) {
        lemma_writing_a_record_keeps_well_formedness(state, caller, node, owner, resolver, ttl);
    }
    if state.has_room_for(subnode) {
        lemma_writing_a_record_keeps_well_formedness(state, caller, subnode, owner, resolver, ttl);
    }
    if state.has_room_for(derived) {
        lemma_writing_a_record_keeps_well_formedness(state, caller, derived, owner, resolver, ttl);
    }
}

} // verus!
