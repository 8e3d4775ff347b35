//! The node deriver: the identifier of a sub-node, from its parent and label.

use vstd::prelude::*;
use crate::types::{Label, Node};

verus! {

/// The identifier of the sub-node of `node` under `label`: the Blake2b hash,
/// 256 bits long, of the parent's 32 bytes followed by the label's 32 bytes.
///
/// It is a function of the two values alone, so one pair always gives one
/// identifier. Nothing else about it is stated here: in particular not that
/// two pairs give two identifiers, which holds only as far as the hash is
/// free of collisions.
pub uninterp spec fn derived_node(node: Node, label: Label) -> Node;

/// `ink_env::hash_encoded::<Blake2x256, _>` on the pair of the node, as an
/// `ink_env::Hash`, and the label: the call encodes the pair, which gives
/// their 64 bytes, hashes them and writes the 32 bytes of the hash.
#[verifier::external_body]
pub(crate) fn hash_node_and_label(node: &Node, label: &Label) -> (subnode: Node)
    ensures
        subnode == derived_node(*node, *label),
{
    let mut output = <ink_env::hash::Blake2x256 as ink_env::hash::HashOutput>::Type::default();
    ink_env::hash_encoded::<ink_env::hash::Blake2x256, _>(
        &(ink_env::Hash::from(node.0), *label),
        &mut output,
    );
    Node(output)
}

} // verus!
