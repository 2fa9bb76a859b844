//! The nodes of a cluster, as one of them knows the others.

use vstd::prelude::*;

verus! {

/// The identifier of a node: a 128-bit number.
pub type NodeId = u128;

/// A peer that is known by its address only: it was configured and has not
/// answered a ping yet.
#[derive(Debug, PartialEq, Eq, Hash)]
pub struct UnknownNode {
    pub address: String,
}

impl Clone for UnknownNode {
    fn clone(&self) -> (copy: Self)
        ensures
            copy.address@ == self.address@,
    {
        UnknownNode { address: self.address.clone() }
    }
}

/// A node that is known by its identifier: this node, or a peer that has
/// answered a ping.
#[derive(Debug, PartialEq, Eq, Hash)]
pub struct Node {
    pub id: NodeId,
    pub address: String,
    pub name: String,
}

/// What the description of a node holds.
pub struct NodeView {
    pub id: NodeId,
    pub address: Seq<char>,
    pub name: Seq<char>,
}

impl View for Node {
    type V = NodeView;

    open spec fn view(&self) -> NodeView {
        NodeView { id: self.id, address: self.address@, name: self.name@ }
    }
}

impl Clone for Node {
    fn clone(&self) -> (copy: Self)
        ensures
            copy@ == self@,
    {
        Node { id: self.id, address: self.address.clone(), name: self.name.clone() }
    }
}

} // verus!
