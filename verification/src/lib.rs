//! A hierarchical name registry.
//!
//! The registry maps 256-bit node identifiers to an owner, a resolver and a
//! time-to-live hint. Child nodes are derived from a parent node and a label
//! by hashing. Three roles may change it: the admin appoints the manager, the
//! manager registers top-level nodes, and a node's owner changes that node.

pub mod types;
pub mod events;
pub mod store;
pub mod deriver;
pub mod model;
pub mod registry;
pub mod laws;

pub use events::{
    ChangeManager, Event, NewOwner, NewResolver, NewTTL, Register, SetAddress, SubNode, Transfer,
};
pub use registry::PeerName;
pub use types::{AccountId, Error, Label, Node, Resolver};
