use peer_name_service::events::{
    ChangeManager, Event, NewOwner, NewResolver, NewTTL, Register, SubNode, Transfer,
};
use peer_name_service::registry::PeerName;
use peer_name_service::types::{AccountId, Error, Label, Node};

fn account(byte: u8) -> AccountId {
    AccountId([byte; 32])
}

fn node(byte: u8) -> Node {
    Node([byte; 32])
}

fn label(byte: u8) -> Label {
    [byte; 32]
}

const ADMIN: u8 = 0xA0;
const MANAGER: u8 = 0xB0;

fn fresh() -> PeerName {
    PeerName::default(account(ADMIN), account(MANAGER))
}

#[test]
fn new_registry_has_its_roles_and_no_node() {
    let registry = fresh();
    assert_eq!(registry.admin(), account(ADMIN));
    assert_eq!(registry.current_manager(), account(MANAGER));
    assert!(!registry.is_domain_exist(node(1)));
    assert!(!registry.is_subdomain_exist(node(1)));
    assert_eq!(registry.owner(node(1)), None);
    assert_eq!(registry.resolver(node(1)), None);
    assert_eq!(registry.ttl(node(1)), 0);
    assert!(!registry.is_full());
}

#[test]
fn registration_stores_the_record_and_announces_it() {
    let mut registry = fresh();
    let mut events = Vec::new();
    let result =
        registry.register_domain(account(MANAGER), node(1), account(2), account(3), 100, &mut events);
    assert_eq!(result, Ok(()));
    assert!(registry.is_domain_exist(node(1)));
    assert_eq!(registry.owner(node(1)), Some(account(2)));
    assert_eq!(registry.resolver(node(1)), Some(account(3)));
    assert_eq!(registry.ttl(node(1)), 100);
    assert_eq!(
        events,
        vec![
            Event::Transfer(Transfer {
                node: node(1),
                owner: account(2),
                actor: account(MANAGER),
            }),
            Event::NewResolver(NewResolver { node: node(1), resolver: account(3) }),
            Event::NewTTL(NewTTL { node: node(1), ttl: 100 }),
            Event::Register(Register { node: node(1), from: account(2) }),
        ]
    );
    assert_eq!(registry.owner(node(2)), None);
    assert_eq!(registry.ttl(node(2)), 0);
}

#[test]
fn registration_appends_to_earlier_notifications() {
    let mut registry = fresh();
    let earlier = Event::Register(Register { node: node(9), from: account(9) });
    let mut events = vec![earlier];
    let result =
        registry.register_domain(account(MANAGER), node(1), account(2), account(3), 1, &mut events);
    assert_eq!(result, Ok(()));
    assert_eq!(events.len(), 5);
    assert_eq!(events[0], earlier);
    assert_eq!(events[4], Event::Register(Register { node: node(1), from: account(2) }));
}

#[test]
fn registering_twice_fails_and_keeps_the_record() {
    let mut registry = fresh();
    let mut events = Vec::new();
    assert_eq!(
        registry.register_domain(account(MANAGER), node(1), account(2), account(3), 100, &mut events),
        Ok(())
    );
    let before = events.clone();
    assert_eq!(
        registry.register_domain(account(MANAGER), node(1), account(4), account(5), 200, &mut events),
        Err(Error::NameAlreadyExists)
    );
    assert_eq!(registry.owner(node(1)), Some(account(2)));
    assert_eq!(registry.resolver(node(1)), Some(account(3)));
    assert_eq!(registry.ttl(node(1)), 100);
    assert_eq!(events, before);
}

#[test]
fn registering_by_another_than_the_manager_fails() {
    let mut registry = fresh();
    let mut events = Vec::new();
    assert_eq!(
        registry.register_domain(account(ADMIN), node(1), account(2), account(3), 100, &mut events),
        Err(Error::UnauthorizedCaller)
    );
    assert_eq!(
        registry.register_domain(account(2), node(1), account(2), account(3), 100, &mut events),
        Err(Error::UnauthorizedCaller)
    );
    assert!(!registry.is_domain_exist(node(1)));
    assert_eq!(registry.owner(node(1)), None);
    assert_eq!(registry.resolver(node(1)), None);
    assert_eq!(registry.ttl(node(1)), 0);
    assert!(events.is_empty());
}

#[test]
fn an_unauthorized_caller_is_refused_before_the_node_is_looked_up() {
    let mut registry = fresh();
    let mut events = Vec::new();
    assert_eq!(
        registry.register_domain(account(MANAGER), node(1), account(2), account(3), 100, &mut events),
        Ok(())
    );
    assert_eq!(
        registry.register_domain(account(2), node(1), account(2), account(3), 100, &mut events),
        Err(Error::UnauthorizedCaller)
    );
}

#[test]
fn a_ttl_of_zero_reads_like_none() {
    let mut registry = fresh();
    let mut events = Vec::new();
    assert_eq!(
        registry.register_domain(account(MANAGER), node(1), account(2), account(3), 0, &mut events),
        Ok(())
    );
    assert_eq!(registry.ttl(node(1)), 0);
    assert_eq!(events[2], Event::NewTTL(NewTTL { node: node(1), ttl: 0 }));
    // The zero was stored: a later value does not replace it.
    assert!(registry.set_record(account(2), node(1), account(2), account(3), 55, &mut events));
    assert_eq!(registry.ttl(node(1)), 0);
}

#[test]
fn resolver_and_ttl_are_set_once() {
    let mut registry = fresh();
    let mut events = Vec::new();
    assert_eq!(
        registry.register_domain(account(MANAGER), node(1), account(2), account(3), 100, &mut events),
        Ok(())
    );
    events.clear();
    assert!(registry.set_record(account(2), node(1), account(2), account(7), 777, &mut events));
    assert_eq!(registry.resolver(node(1)), Some(account(3)));
    assert_eq!(registry.ttl(node(1)), 100);
    assert_eq!(
        events,
        vec![Event::Transfer(Transfer { node: node(1), owner: account(2), actor: account(2) })]
    );
}

#[test]
fn set_record_fills_in_what_a_node_lacks() {
    let mut registry = fresh();
    let mut events = Vec::new();
    assert_eq!(
        registry.assign_subnode(account(9), node(1), label(2), node(3), account(4), &mut events),
        Ok(())
    );
    assert_eq!(registry.resolver(node(3)), None);
    assert_eq!(registry.ttl(node(3)), 0);
    events.clear();
    assert!(registry.set_record(account(4), node(3), account(5), account(6), 60, &mut events));
    assert_eq!(registry.owner(node(3)), Some(account(5)));
    assert_eq!(registry.resolver(node(3)), Some(account(6)));
    assert_eq!(registry.ttl(node(3)), 60);
    assert_eq!(
        events,
        vec![
            Event::Transfer(Transfer { node: node(3), owner: account(5), actor: account(4) }),
            Event::NewResolver(NewResolver { node: node(3), resolver: account(6) }),
            Event::NewTTL(NewTTL { node: node(3), ttl: 60 }),
        ]
    );
}

#[test]
fn set_record_is_for_the_owner_only() {
    let mut registry = fresh();
    let mut events = Vec::new();
    assert_eq!(
        registry.register_domain(account(MANAGER), node(1), account(2), account(3), 100, &mut events),
        Ok(())
    );
    events.clear();
    assert!(!registry.set_record(account(MANAGER), node(1), account(9), account(9), 9, &mut events));
    assert!(!registry.set_record(account(2), node(8), account(9), account(9), 9, &mut events));
    assert_eq!(registry.owner(node(1)), Some(account(2)));
    assert_eq!(registry.owner(node(8)), None);
    assert_eq!(registry.resolver(node(8)), None);
    assert!(events.is_empty());
}

#[test]
fn only_the_owner_transfers() {
    let mut registry = fresh();
    let mut events = Vec::new();
    assert_eq!(
        registry.register_domain(account(MANAGER), node(1), account(2), account(3), 100, &mut events),
        Ok(())
    );
    events.clear();
    assert!(!registry.setOwner(account(MANAGER), node(1), account(9), &mut events));
    assert!(!registry.setOwner(account(ADMIN), node(1), account(9), &mut events));
    assert!(!registry.setOwner(account(9), node(1), account(9), &mut events));
    assert_eq!(registry.owner(node(1)), Some(account(2)));
    assert!(events.is_empty());

    assert!(registry.setOwner(account(2), node(1), account(9), &mut events));
    assert_eq!(registry.owner(node(1)), Some(account(9)));
    assert_eq!(registry.resolver(node(1)), Some(account(3)));
    assert_eq!(registry.ttl(node(1)), 100);
    assert_eq!(
        events,
        vec![Event::Transfer(Transfer { node: node(1), owner: account(9), actor: account(2) })]
    );

    // The former owner has lost the node, the new one has it.
    assert!(!registry.setOwner(account(2), node(1), account(2), &mut events));
    assert!(registry.setOwner(account(9), node(1), account(2), &mut events));
    assert_eq!(registry.owner(node(1)), Some(account(2)));
}

#[test]
fn a_node_without_owner_cannot_be_transferred() {
    let mut registry = fresh();
    let mut events = Vec::new();
    assert!(!registry.setOwner(account(2), node(1), account(2), &mut events));
    assert!(!registry.is_domain_exist(node(1)));
    assert!(events.is_empty());
}

#[test]
fn only_the_admin_changes_the_manager() {
    let mut registry = fresh();
    let mut events = Vec::new();
    assert_eq!(
        registry.change_manager(account(MANAGER), account(1), &mut events),
        Err(Error::UnauthorizedCaller)
    );
    assert_eq!(registry.current_manager(), account(MANAGER));
    assert!(events.is_empty());

    assert_eq!(registry.change_manager(account(ADMIN), account(1), &mut events), Ok(()));
    assert_eq!(registry.current_manager(), account(1));
    assert_eq!(registry.admin(), account(ADMIN));
    assert_eq!(
        events,
        vec![Event::ChangeManager(ChangeManager {
            _current_manager: Some(account(MANAGER)),
            _new_manager: Some(account(1)),
        })]
    );
}

#[test]
fn the_new_manager_registers_and_the_old_one_does_not() {
    let mut registry = fresh();
    let mut events = Vec::new();
    assert_eq!(registry.change_manager(account(ADMIN), account(1), &mut events), Ok(()));
    assert_eq!(
        registry.register_domain(account(MANAGER), node(1), account(2), account(3), 1, &mut events),
        Err(Error::UnauthorizedCaller)
    );
    assert_eq!(
        registry.register_domain(account(1), node(1), account(2), account(3), 1, &mut events),
        Ok(())
    );
}

#[test]
fn the_admin_may_appoint_itself() {
    let mut registry = fresh();
    let mut events = Vec::new();
    assert_eq!(registry.change_manager(account(ADMIN), account(ADMIN), &mut events), Ok(()));
    assert_eq!(registry.current_manager(), account(ADMIN));
}

#[test]
fn derivation_gives_the_blake2_hash_of_node_and_label() {
    let registry = fresh();
    let mut events = Vec::new();
    let subnode = registry.get_Subnode(node(1), label(2), &mut events);
    assert_eq!(
        subnode,
        Node([
            48, 182, 0, 251, 31, 12, 192, 179, 240, 252, 40, 205, 203, 115, 137, 64, 90, 102, 89,
            190, 129, 199, 213, 197, 144, 87, 37, 170, 58, 81, 25, 206,
        ])
    );
    assert_eq!(
        events,
        vec![Event::SubNode(SubNode { node: node(1), label: label(2), subnode })]
    );
    let zero = registry.get_Subnode(node(0), label(0), &mut events);
    assert_eq!(
        zero,
        Node([
            14, 185, 35, 176, 203, 210, 77, 245, 68, 1, 217, 152, 83, 31, 238, 173, 53, 164, 122,
            153, 244, 222, 237, 32, 93, 228, 175, 129, 18, 15, 151, 97,
        ])
    );
}

#[test]
fn derivation_is_deterministic_and_ignores_the_state() {
    let mut registry = fresh();
    let mut events = Vec::new();
    let first = registry.get_Subnode(node(1), label(2), &mut events);
    assert_eq!(
        registry.register_domain(account(MANAGER), node(1), account(2), account(3), 1, &mut events),
        Ok(())
    );
    let second = registry.get_Subnode(node(1), label(2), &mut events);
    let elsewhere = PeerName::default(account(1), account(1)).get_Subnode(
        node(1),
        label(2),
        &mut events,
    );
    assert_eq!(first, second);
    assert_eq!(first, elsewhere);
}

#[test]
fn derivation_tells_pairs_apart() {
    let registry = fresh();
    let mut events = Vec::new();
    let mut seen = std::collections::HashSet::new();
    for parent in 0..64u8 {
        for segment in 0..64u8 {
            let subnode = registry.get_Subnode(node(parent), label(segment), &mut events);
            assert_ne!(subnode, node(parent));
            assert!(seen.insert(subnode.0));
        }
    }
    assert_eq!(seen.len(), 4096);
    assert_eq!(events.len(), 4096);
    // Parent and label are not interchangeable.
    let one = registry.get_Subnode(node(1), label(2), &mut events);
    let other = registry.get_Subnode(node(2), label(1), &mut events);
    assert_ne!(one, other);
    // A pair that differs from another in one byte of the label or of the parent.
    let mut nearly = label(2);
    nearly[31] = 3;
    assert_ne!(registry.get_Subnode(node(1), nearly, &mut events), one);
    let mut beside = [1u8; 32];
    beside[0] = 0;
    assert_ne!(registry.get_Subnode(Node(beside), label(2), &mut events), one);
}

#[test]
fn a_sub_domain_needs_its_parent() {
    let mut registry = fresh();
    let mut events = Vec::new();
    assert_eq!(
        registry.register_sub_domain(
            account(9),
            node(1),
            label(2),
            account(4),
            account(5),
            6,
            &mut events
        ),
        Err(Error::NameNotExists)
    );
    assert_eq!(
        registry.register_subnode(
            account(9),
            node(1),
            label(2),
            node(3),
            account(4),
            account(5),
            6,
            &mut events
        ),
        Err(Error::NameNotExists)
    );
    assert!(!registry.is_subdomain_exist(node(3)));
    assert!(events.is_empty());
}

#[test]
fn a_sub_domain_is_registered_under_its_derived_node() {
    let mut registry = fresh();
    let mut events = Vec::new();
    assert_eq!(
        registry.register_domain(account(MANAGER), node(1), account(2), account(3), 100, &mut events),
        Ok(())
    );
    let subnode = registry.get_Subnode(node(1), label(2), &mut events);
    events.clear();
    // Anyone may register under a registered parent: the caller is not its owner.
    assert_eq!(
        registry.register_sub_domain(
            account(9),
            node(1),
            label(2),
            account(4),
            account(5),
            6,
            &mut events
        ),
        Ok(())
    );
    assert!(registry.is_subdomain_exist(subnode));
    assert_eq!(registry.owner(subnode), Some(account(4)));
    assert_eq!(registry.resolver(subnode), Some(account(5)));
    assert_eq!(registry.ttl(subnode), 6);
    assert_eq!(registry.owner(node(1)), Some(account(2)));
    assert_eq!(
        events,
        vec![
            Event::SubNode(SubNode { node: node(1), label: label(2), subnode }),
            Event::NewOwner(NewOwner {
                node: node(1),
                label: label(2),
                owner: account(4),
                actor: account(9),
            }),
            Event::NewResolver(NewResolver { node: subnode, resolver: account(5) }),
            Event::NewTTL(NewTTL { node: subnode, ttl: 6 }),
            Event::Register(Register { node: subnode, from: account(4) }),
        ]
    );
}

#[test]
fn a_registered_sub_domain_is_not_registered_again() {
    let mut registry = fresh();
    let mut events = Vec::new();
    assert_eq!(
        registry.register_domain(account(MANAGER), node(1), account(2), account(3), 100, &mut events),
        Ok(())
    );
    assert_eq!(
        registry.register_sub_domain(
            account(9),
            node(1),
            label(2),
            account(4),
            account(5),
            6,
            &mut events
        ),
        Ok(())
    );
    let subnode = registry.get_Subnode(node(1), label(2), &mut events);
    events.clear();
    // Neither a stranger nor the sub-node's owner registers it a second time.
    for caller in [account(9), account(4), account(2), account(MANAGER)] {
        assert_eq!(
            registry.register_sub_domain(
                caller,
                node(1),
                label(2),
                account(8),
                account(9),
                10,
                &mut events
            ),
            Err(Error::NameAlreadyExists)
        );
    }
    assert_eq!(registry.owner(subnode), Some(account(4)));
    assert_eq!(registry.resolver(subnode), Some(account(5)));
    assert_eq!(registry.ttl(subnode), 6);
    assert!(events.is_empty());
}

#[test]
fn registering_a_sub_node_does_not_take_over_a_registered_node() {
    let mut registry = fresh();
    let mut events = Vec::new();
    assert_eq!(
        registry.register_domain(account(MANAGER), node(1), account(2), account(3), 100, &mut events),
        Ok(())
    );
    assert_eq!(
        registry.register_domain(account(MANAGER), node(7), account(6), account(3), 100, &mut events),
        Ok(())
    );
    events.clear();
    assert_eq!(
        registry.register_subnode(
            account(2),
            node(1),
            label(2),
            node(7),
            account(2),
            account(9),
            10,
            &mut events
        ),
        Err(Error::NameAlreadyExists)
    );
    // A parent is no sub-node of itself either.
    assert_eq!(
        registry.register_subnode(
            account(2),
            node(1),
            label(2),
            node(1),
            account(9),
            account(9),
            10,
            &mut events
        ),
        Err(Error::NameAlreadyExists)
    );
    assert_eq!(registry.owner(node(7)), Some(account(6)));
    assert_eq!(registry.owner(node(1)), Some(account(2)));
    assert!(events.is_empty());
}

#[test]
fn a_new_sub_node_is_given_an_owner_by_anyone() {
    let mut registry = fresh();
    let mut events = Vec::new();
    let subnode = registry.get_Subnode(node(1), label(2), &mut events);
    events.clear();
    assert_eq!(
        registry.set_Subnodeowner(account(9), node(1), label(2), account(4), &mut events),
        Ok(())
    );
    assert!(registry.is_subdomain_exist(subnode));
    assert!(!registry.is_domain_exist(node(1)));
    assert_eq!(registry.owner(subnode), Some(account(4)));
    assert_eq!(registry.resolver(subnode), None);
    assert_eq!(registry.ttl(subnode), 0);
    assert_eq!(
        events,
        vec![
            Event::SubNode(SubNode { node: node(1), label: label(2), subnode }),
            Event::NewOwner(NewOwner {
                node: node(1),
                label: label(2),
                owner: account(4),
                actor: account(9),
            }),
        ]
    );
}

#[test]
fn a_sub_node_keeps_its_owner_against_another_caller() {
    let mut registry = fresh();
    let mut events = Vec::new();
    let subnode = registry.get_Subnode(node(1), label(2), &mut events);
    assert_eq!(
        registry.set_Subnodeowner(account(9), node(1), label(2), account(4), &mut events),
        Ok(())
    );
    events.clear();
    for caller in [account(9), account(5), account(MANAGER), account(ADMIN)] {
        assert_eq!(
            registry.set_Subnodeowner(caller, node(1), label(2), account(5), &mut events),
            Err(Error::UnauthorizedCaller)
        );
        assert_eq!(registry.owner(subnode), Some(account(4)));
    }
    assert!(events.is_empty());

    // Its owner hands it on, and has then lost it.
    assert_eq!(
        registry.set_Subnodeowner(account(4), node(1), label(2), account(5), &mut events),
        Ok(())
    );
    assert_eq!(registry.owner(subnode), Some(account(5)));
    assert_eq!(
        events,
        vec![
            Event::SubNode(SubNode { node: node(1), label: label(2), subnode }),
            Event::NewOwner(NewOwner {
                node: node(1),
                label: label(2),
                owner: account(5),
                actor: account(4),
            }),
        ]
    );
    assert_eq!(
        registry.set_Subnodeowner(account(4), node(1), label(2), account(4), &mut events),
        Err(Error::UnauthorizedCaller)
    );
    assert_eq!(registry.owner(subnode), Some(account(5)));
}

#[test]
fn assigning_a_sub_node_does_not_take_over_a_registered_node() {
    let mut registry = fresh();
    let mut events = Vec::new();
    assert_eq!(
        registry.register_domain(account(MANAGER), node(1), account(2), account(3), 100, &mut events),
        Ok(())
    );
    events.clear();
    assert_eq!(
        registry.assign_subnode(account(9), node(5), label(6), node(1), account(9), &mut events),
        Err(Error::UnauthorizedCaller)
    );
    assert_eq!(
        registry.assign_subnode(account(MANAGER), node(5), label(6), node(1), account(9), &mut events),
        Err(Error::UnauthorizedCaller)
    );
    assert_eq!(registry.owner(node(1)), Some(account(2)));
    assert!(events.is_empty());
    assert_eq!(
        registry.assign_subnode(account(2), node(5), label(6), node(1), account(9), &mut events),
        Ok(())
    );
    assert_eq!(registry.owner(node(1)), Some(account(9)));
    assert_eq!(registry.resolver(node(1)), Some(account(3)));
    assert_eq!(registry.ttl(node(1)), 100);
}

#[test]
fn resolver_and_ttl_alone_are_set_once_and_by_the_owner() {
    let mut registry = fresh();
    let mut events = Vec::new();
    assert_eq!(
        registry.assign_subnode(account(9), node(1), label(2), node(3), account(4), &mut events),
        Ok(())
    );
    events.clear();
    // Not the owner, and a node that is not registered: nothing happens.
    assert!(!registry._setResolverAndTTL(account(9), node(3), account(6), 60, &mut events));
    assert!(!registry._setResolverAndTTL(account(4), node(8), account(6), 60, &mut events));
    assert_eq!(registry.resolver(node(3)), None);
    assert_eq!(registry.ttl(node(3)), 0);
    assert_eq!(registry.resolver(node(8)), None);
    assert!(events.is_empty());

    assert!(registry._setResolverAndTTL(account(4), node(3), account(6), 60, &mut events));
    assert_eq!(registry.owner(node(3)), Some(account(4)));
    assert_eq!(registry.resolver(node(3)), Some(account(6)));
    assert_eq!(registry.ttl(node(3)), 60);
    assert_eq!(
        events,
        vec![
            Event::NewResolver(NewResolver { node: node(3), resolver: account(6) }),
            Event::NewTTL(NewTTL { node: node(3), ttl: 60 }),
        ]
    );

    // A second time, with other values: the first ones stay and nothing is announced.
    events.clear();
    assert!(registry._setResolverAndTTL(account(4), node(3), account(7), 70, &mut events));
    assert_eq!(registry.resolver(node(3)), Some(account(6)));
    assert_eq!(registry.ttl(node(3)), 60);
    assert_eq!(registry.owner(node(3)), Some(account(4)));
    assert!(events.is_empty());
}

#[test]
fn records_are_kept_apart() {
    let mut registry = fresh();
    let mut events = Vec::new();
    for byte in 1..=40u8 {
        assert_eq!(
            registry.register_domain(
                account(MANAGER),
                node(byte),
                account(byte),
                account(byte + 100),
                u64::from(byte) * 10,
                &mut events
            ),
            Ok(())
        );
    }
    for byte in 1..=40u8 {
        assert_eq!(registry.owner(node(byte)), Some(account(byte)));
        assert_eq!(registry.resolver(node(byte)), Some(account(byte + 100)));
        assert_eq!(registry.ttl(node(byte)), u64::from(byte) * 10);
    }
    assert!(!registry.is_domain_exist(node(41)));
    assert!(!registry.is_full());
    assert_eq!(events.len(), 160);
}

#[test]
fn nodes_that_differ_in_one_byte_are_different_nodes() {
    let mut registry = fresh();
    let mut events = Vec::new();
    let mut last = [7u8; 32];
    last[31] = 8;
    let mut first = [7u8; 32];
    first[0] = 8;
    assert_eq!(
        registry.register_domain(account(MANAGER), node(7), account(1), account(1), 1, &mut events),
        Ok(())
    );
    assert!(!registry.is_domain_exist(Node(last)));
    assert!(!registry.is_domain_exist(Node(first)));
    // An owner that differs from the caller in the last byte only is another account.
    assert!(!registry.setOwner(AccountId({
        let mut bytes = [1u8; 32];
        bytes[31] = 2;
        bytes
    }), node(7), account(9), &mut events));
    assert!(registry.setOwner(account(1), node(7), account(9), &mut events));
}

#[test]
fn the_greatest_ttl_is_stored() {
    let mut registry = fresh();
    let mut events = Vec::new();
    assert_eq!(
        registry.register_domain(
            account(MANAGER),
            node(1),
            account(2),
            account(3),
            u64::MAX,
            &mut events
        ),
        Ok(())
    );
    assert_eq!(registry.ttl(node(1)), u64::MAX);
}

#[test]
fn end_to_end() {
    let admin = account(0xA0);
    let manager = account(0xB0);
    let (n1, l1) = (node(0x11), label(0x21));
    let (o1, o2, o3) = (account(0x01), account(0x02), account(0x03));
    let (r1, r2) = (account(0x31), account(0x32));
    let mut registry = PeerName::default(admin, manager);
    let mut events = Vec::new();

    assert_eq!(registry.register_domain(manager, n1, o1, r1, 100, &mut events), Ok(()));
    assert_eq!(registry.owner(n1), Some(o1));

    let s1 = registry.get_Subnode(n1, l1, &mut events);
    assert_eq!(registry.register_sub_domain(o1, n1, l1, o2, r2, 50, &mut events), Ok(()));
    assert_eq!(registry.owner(s1), Some(o2));

    // The owner of the sub-node does not own the parent: its attempt fails.
    assert!(!registry.setOwner(o2, n1, o3, &mut events));
    assert_eq!(registry.owner(n1), Some(o1));
    assert!(registry.setOwner(o1, n1, o3, &mut events));
    assert_eq!(registry.owner(n1), Some(o3));
    assert!(!registry.setOwner(o2, n1, o2, &mut events));
    assert_eq!(registry.owner(n1), Some(o3));
}
