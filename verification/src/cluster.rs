//! What a node knows of its cluster: itself, its peers, and the pings that
//! reached it.

use std::time::SystemTime;
use vstd::prelude::*;
use crate::configuration::{address_text, Configuration, ConfigurationView};
use crate::node::{Node, NodeId, NodeView, UnknownNode};
use crate::utils::{is_random, make_id};

verus! {

/// `im::HashSet`: Verus sees nothing of what it holds but what the functions
/// of this library that call it state.
#[verifier::external_type_specification]
#[verifier::external_body]
#[verifier::reject_recursive_types(A)]
#[verifier::reject_recursive_types(S)]
pub struct ExHashSet<A, S>(im::HashSet<A, S>);

/// `std::time::SystemTime`: a point in time, which this library stores and
/// hands on without looking into it.
#[verifier::external_type_specification]
#[verifier::external_body]
pub struct ExSystemTime(std::time::SystemTime);

/// `SystemTime::now`: the time of the call, of which nothing is promised.
#[verifier::external_body]
pub(crate) fn now() -> (time: SystemTime) {
    SystemTime::now()
}

/// A ping: who sent it, and when.
#[derive(Debug, PartialEq)]
pub struct Ping {
    pub from: Node,
    pub timestamp: SystemTime,
}

/// The answer to a ping.
pub type Pong = Ping;

/// What a ping holds.
pub struct PingView {
    pub from: NodeView,
    pub timestamp: SystemTime,
}

impl View for Ping {
    type V = PingView;

    open spec fn view(&self) -> PingView {
        PingView { from: self.from@, timestamp: self.timestamp }
    }
}

impl Clone for Ping {
    fn clone(&self) -> (copy: Self)
        ensures
            copy@ == self@,
    {
        Ping { from: self.from.clone(), timestamp: self.timestamp }
    }
}

/// A mathematical map from identifiers to the nodes that bear them.
pub type Known = Map<NodeId, NodeView>;

/// A mathematical map from identifiers to the last ping of the nodes that bear them.
pub type Heartbeats = Map<NodeId, PingView>;

/// The addresses of the peers in a set of unidentified peers. A peer is found
/// again in the set by its address, which is all that it holds.
pub uninterp spec fn addresses(set: im::HashSet<UnknownNode>) -> Set<Seq<char>>;

/// The nodes of a map of known nodes, each under its identifier.
pub uninterp spec fn known(map: im::HashMap<u128, Node>) -> Map<u128, NodeView>;

/// The pings of a map of pings, each under the identifier of its sender.
pub uninterp spec fn heartbeats(map: im::HashMap<u128, Ping>) -> Map<u128, PingView>;

/// The addresses of a list of unidentified peers, in order.
pub open spec fn address_texts(list: Seq<UnknownNode>) -> Seq<Seq<char>> {
    Seq::new(list.len(), |i: int| list[i].address@)
}

/// What a list of nodes holds, in order.
pub open spec fn node_views(list: Seq<Node>) -> Seq<NodeView> {
    Seq::new(list.len(), |i: int| list[i]@)
}

/// Whether a list names each address of a set, and each once.
pub open spec fn lists_addresses(list: Seq<Seq<char>>, set: Set<Seq<char>>) -> bool {
    &&& forall|i: int| 0 <= i < list.len() ==> set.contains(#[trigger] list[i])
    &&& forall|address: Seq<char>| #[trigger]
        set.contains(address) ==> exists|i: int| 0 <= i < list.len() && list[i] == address
    &&& forall|i: int, j: int| 0 <= i < j < list.len() ==> list[i] != list[j]
}

/// Whether a list holds the nodes of a map in the order of the given list of
/// identifiers, which names each identifier of the map once.
pub open spec fn lists_nodes_by(ids: Seq<NodeId>, list: Seq<NodeView>, map: Known) -> bool {
    &&& ids.len() == list.len()
    &&& forall|i: int| 0 <= i < ids.len() ==> map.contains_key(#[trigger] ids[i]) && map[ids[i]] == list[i]
    &&& forall|id: NodeId| #[trigger]
        map.contains_key(id) ==> exists|i: int| 0 <= i < ids.len() && ids[i] == id
    &&& forall|i: int, j: int| 0 <= i < j < ids.len() ==> ids[i] != ids[j]
}

/// Whether a list holds the nodes of a map: for each identifier of the map
/// the node that stands under it, once.
pub open spec fn lists_nodes(list: Seq<NodeView>, map: Known) -> bool {
    exists|ids: Seq<NodeId>| #[trigger] lists_nodes_by(ids, list, map)
}

/// `im::HashSet::new`: the new set is empty.
#[verifier::external_body]
pub(crate) fn unknown_new() -> (set: im::HashSet<UnknownNode>)
    ensures
        addresses(set) == Set::<Seq<char>>::empty(),
{
    im::HashSet::new()
}

/// `im::HashSet::insert`: afterwards the set holds the address of the given
/// peer and what it held before.
#[verifier::external_body]
pub(crate) fn unknown_insert(set: &mut im::HashSet<UnknownNode>, peer: UnknownNode)
    ensures
        addresses(*final(set)) == addresses(*old(set)).insert(peer.address@),
{
    set.insert(peer);
}

/// `im::HashSet::remove`: afterwards the set holds what it held before but
/// for the address of the given peer.
#[verifier::external_body]
pub(crate) fn unknown_remove(set: &mut im::HashSet<UnknownNode>, peer: &UnknownNode)
    ensures
        addresses(*final(set)) == addresses(*old(set)).remove(peer.address@),
{
    set.remove(peer);
}

/// `im::HashSet::iter`: the peers of the set, each once, in the order in
/// which the set hands them out.
#[verifier::external_body]
pub(crate) fn unknown_list(set: &im::HashSet<UnknownNode>) -> (list: Vec<UnknownNode>)
    ensures
        lists_addresses(address_texts(list@), addresses(*set)),
{
    set.iter().cloned().collect()
}

/// `im::HashMap::new`: the new map holds no node.
#[verifier::external_body]
pub(crate) fn known_new() -> (map: im::HashMap<NodeId, Node>)
    ensures
        known(map) == Known::empty(),
{
    im::HashMap::new()
}

/// `im::HashMap::insert`: afterwards the identifier maps to the given node
/// and every other identifier is as before.
#[verifier::external_body]
pub(crate) fn known_insert(map: &mut im::HashMap<NodeId, Node>, id: NodeId, node: Node)
    ensures
        known(*final(map)) == known(*old(map)).insert(id, node@),
{
    map.insert(id, node);
}

/// `im::HashMap::update`: a map in which the identifier maps to the given
/// node and every other identifier is as in the given map.
#[verifier::external_body]
pub(crate) fn known_update(map: &im::HashMap<NodeId, Node>, id: NodeId, node: Node) -> (updated: im::HashMap<
    NodeId,
    Node,
>)
    ensures
        known(updated) == known(*map).insert(id, node@),
{
    map.update(id, node)
}

/// `im::HashMap::values`: the nodes of the map, one for each identifier, in
/// the order in which the map hands them out.
#[verifier::external_body]
pub(crate) fn known_list(map: &im::HashMap<NodeId, Node>) -> (list: Vec<Node>)
    ensures
        lists_nodes(node_views(list@), known(*map)),
{
    map.values().cloned().collect()
}

/// `im::HashMap::new`: the new map holds no ping.
#[verifier::external_body]
pub(crate) fn heartbeats_new() -> (map: im::HashMap<NodeId, Ping>)
    ensures
        heartbeats(map) == Heartbeats::empty(),
{
    im::HashMap::new()
}

/// `im::HashMap::insert`: afterwards the identifier maps to the given ping
/// and every other identifier is as before.
#[verifier::external_body]
pub(crate) fn heartbeats_insert(map: &mut im::HashMap<NodeId, Ping>, id: NodeId, ping: Ping)
    ensures
        heartbeats(*final(map)) == heartbeats(*old(map)).insert(id, ping@),
{
    map.insert(id, ping);
}

/// What a node knows of its cluster.
#[derive(Debug)]
pub struct Cluster {
    pub leader: Option<Node>,
    pub name: String,
    pub node: Node,
    pub unknown_peers: im::HashSet<UnknownNode>,
    pub peers: im::HashMap<NodeId, Node>,
    pub noronha_version: String,
    pub pings: im::HashMap<NodeId, Ping>,
    pub state_version: i64,
}

/// What the state of a cluster holds: the node itself; the addresses of the
/// peers that are not identified yet; the identified peers, by identifier;
/// and the last ping of each sender, by identifier.
pub struct ClusterView {
    pub leader: Option<NodeView>,
    pub name: Seq<char>,
    pub node: NodeView,
    pub unknown_peers: Set<Seq<char>>,
    pub peers: Known,
    pub noronha_version: Seq<char>,
    pub pings: Heartbeats,
    pub state_version: i64,
}

impl View for Cluster {
    type V = ClusterView;

    open spec fn view(&self) -> ClusterView {
        ClusterView {
            leader: match self.leader {
                Some(node) => Some(node@),
                None => None,
            },
            name: self.name@,
            node: self.node@,
            unknown_peers: addresses(self.unknown_peers),
            peers: known(self.peers),
            noronha_version: self.noronha_version@,
            pings: heartbeats(self.pings),
            state_version: self.state_version,
        }
    }
}

/// What a node knows of its cluster, if it knows anything yet.
pub open spec fn state(cluster: Option<Cluster>) -> Option<ClusterView> {
    match cluster {
        Some(cluster) => Some(cluster@),
        None => None,
    }
}

impl ClusterView {
    /// The state in which a node with the given settings and identifier
    /// starts: no leader, every configured peer unidentified, no ping received.
    pub open spec fn initial(configuration: ConfigurationView, id: NodeId, version: Seq<char>) -> ClusterView {
        ClusterView {
            leader: None,
            name: configuration.cluster_name,
            node: NodeView {
                id,
                address: address_text(configuration.publish_host, configuration.http_transport_port),
                name: configuration.node_name,
            },
            unknown_peers: configuration.cluster_peers.to_set(),
            peers: Known::empty(),
            noronha_version: version,
            pings: Heartbeats::empty(),
            state_version: 0,
        }
    }

    /// The state after the peer at the given address has shown itself to be
    /// the given node: the address is no longer unidentified and the node is
    /// known under its identifier.
    pub open spec fn identify_peer(self, address: Seq<char>, peer: NodeView) -> ClusterView {
        ClusterView {
            unknown_peers: self.unknown_peers.remove(address),
            peers: self.peers.insert(peer.id, peer),
            ..self
        }
    }

    /// The state after a ping of the given node has arrived at the given
    /// time: it is the last ping of its sender.
    pub open spec fn register_ping(self, pinger: NodeView, timestamp: SystemTime) -> ClusterView {
        ClusterView { pings: self.pings.insert(pinger.id, PingView { from: pinger, timestamp }), ..self }
    }

    /// The nodes of the cluster: the known peers and the node itself.
    pub open spec fn nodes(self) -> Known {
        self.peers.insert(self.node.id, self.node)
    }
}

impl Cluster {
    /// The state in which a node with the given settings and identifier starts.
    pub fn make(configuration: &Configuration, id: NodeId, version: &str) -> (cluster: Self)
        ensures
            cluster@ == ClusterView::initial(configuration@, id, version@),
    {
        let node = Node { id, name: configuration.node_name.clone(), address: configuration.node_address() };
        let mut unknown_peers = unknown_new();
        let mut i: usize = 0;
        while i < configuration.cluster_peers.len()
            invariant
                i <= configuration.cluster_peers.len(),
                forall|address: Seq<char>| #[trigger]
                    addresses(unknown_peers).contains(address) <==> exists|j: int|
                        0 <= j < i && configuration.cluster_peers@[j]@ == address,
            decreases configuration.cluster_peers.len() - i,
        {
            unknown_insert(&mut unknown_peers, UnknownNode { address: configuration.cluster_peers[i].clone() });
            i += 1;
        }
        proof {
            let expected = configuration@.cluster_peers.to_set();
            assert forall|address: Seq<char>| addresses(unknown_peers).contains(address) implies expected.contains(
                address,
            ) by {
                let j = choose|j: int| 0 <= j < i && configuration.cluster_peers@[j]@ == address;
                assert(configuration@.cluster_peers[j] == address);
            }
            assert(addresses(unknown_peers) =~= expected);
        }
        Cluster {
            leader: None,
            name: configuration.cluster_name.clone(),
            node,
            unknown_peers,
            peers: known_new(),
            noronha_version: version.to_owned(),
            pings: heartbeats_new(),
            state_version: 0,
        }
    }

    /// The answer of this node to a ping: the node itself, at the time of the call.
    pub fn make_pong(&self) -> (pong: Pong)
        ensures
            pong@.from == self@.node,
    {
        Ping { from: self.node.clone(), timestamp: now() }
    }

    /// Notes that the peer at the address of `unknown` has shown itself to be
    /// `peer`, and hands `peer` back.
    pub fn identify_peer(&mut self, unknown: &UnknownNode, peer: Node) -> (identified: Node)
        ensures
            final(self)@ == old(self)@.identify_peer(unknown.address@, peer@),
            identified@ == peer@,
    {
        unknown_remove(&mut self.unknown_peers, unknown);
        known_insert(&mut self.peers, peer.id, peer.clone());
        peer
    }

    /// Notes a ping of the given node, at the time of the call, as the last
    /// ping of its sender.
    pub fn register_ping(&mut self, pinger: Node)
        ensures
            exists|timestamp: SystemTime| final(self)@ == old(self)@.register_ping(pinger@, timestamp),
    {
        let timestamp = now();
        self.register_ping_at(pinger, timestamp);
    }

    /// Notes a ping of the given node, at the given time, as the last ping of
    /// its sender.
    pub fn register_ping_at(&mut self, pinger: Node, timestamp: SystemTime)
        ensures
            final(self)@ == old(self)@.register_ping(pinger@, timestamp),
    {
        heartbeats_insert(&mut self.pings, pinger.id, Ping { from: pinger, timestamp });
    }

    /// The nodes of the cluster: the known peers and the node itself, each
    /// under its identifier.
    pub fn nodes(&self) -> (nodes: im::HashMap<NodeId, Node>)
        ensures
            known(nodes) == self@.nodes(),
    {
        known_update(&self.peers, self.node.id, self.node.clone())
    }
}

/// The state in which a node with the given settings starts, under a fresh
/// random identifier.
pub fn initialize(configuration: &Configuration, version: &str) -> (cluster: Cluster)
    ensures
        exists|id: NodeId| is_random(id) && cluster@ == ClusterView::initial(configuration@, id, version@),
{
    Cluster::make(configuration, make_id(), version)
}

/// A change of what a node knows of its cluster.
pub enum Change {
    /// The peer at the address has shown itself to be the node.
    Identified { address: Seq<char>, peer: NodeView },
    /// A ping of the node has arrived at the time.
    Pinged { pinger: NodeView, timestamp: SystemTime },
}

impl ClusterView {
    /// The state after a change.
    pub open spec fn change(self, change: Change) -> ClusterView {
        match change {
            Change::Identified { address, peer } => self.identify_peer(address, peer),
            Change::Pinged { pinger, timestamp } => self.register_ping(pinger, timestamp),
        }
    }

    /// The state after a sequence of changes, made in order.
    pub open spec fn change_all(self, changes: Seq<Change>) -> ClusterView
        decreases changes.len(),
    {
        if changes.len() == 0 {
            self
        } else {
            self.change_all(changes.drop_last()).change(changes.last())
        }
    }

    /// Whether no known peer has an address that is still unidentified.
    pub open spec fn addresses_apart(self) -> bool {
        forall|id: NodeId| #[trigger]
            self.peers.contains_key(id) ==> !self.unknown_peers.contains(self.peers[id].address)
    }
}

/// Membership only grows: whatever changes are made, every identifier that
/// was known stays known and no address becomes unidentified that was not.
/// The node itself, the name of the cluster, its leader and the version of
/// the state stay what they were.
pub proof fn membership_only_grows(cluster: ClusterView, changes: Seq<Change>)
    ensures
        cluster.peers.dom().subset_of(cluster.change_all(changes).peers.dom()),
        cluster.change_all(changes).unknown_peers.subset_of(cluster.unknown_peers),
        cluster.change_all(changes).node == cluster.node,
        cluster.change_all(changes).name == cluster.name,
        cluster.change_all(changes).leader == cluster.leader,
        cluster.change_all(changes).state_version == cluster.state_version,
    decreases changes.len(),
{
    if changes.len() > 0 {
        membership_only_grows(cluster, changes.drop_last());
    }
}

/// A node starts with no known peer, so with no address on both sides.
pub proof fn addresses_start_apart(configuration: ConfigurationView, id: NodeId, version: Seq<char>)
    ensures
        ClusterView::initial(configuration, id, version).addresses_apart(),
{
}

/// An identification keeps the addresses apart, provided that the address
/// which the identified node gives for itself is not among the addresses that
/// stay unidentified. A ping keeps them apart in any case.
pub proof fn addresses_stay_apart(cluster: ClusterView, change: Change)
    requires
        cluster.addresses_apart(),
        change matches Change::Identified { address, peer } ==> !cluster.unknown_peers.remove(address).contains(
            peer.address,
        ),
    ensures
        cluster.change(change).addresses_apart(),
{
}

/// The last ping wins: after two pings of nodes with one identifier, the ping
/// noted for that identifier is the second, with its time, whatever the two
/// times are; the ping noted for any other identifier is as before.
pub proof fn last_ping_wins(
    cluster: ClusterView,
    first: NodeView,
    first_time: SystemTime,
    second: NodeView,
    second_time: SystemTime,
)
    requires
        first.id == second.id,
    ensures
        ({
            let after = cluster.register_ping(first, first_time).register_ping(second, second_time);
            &&& after.pings.contains_key(first.id)
            &&& after.pings[first.id] == PingView { from: second, timestamp: second_time }
            &&& after.pings[first.id].timestamp == second_time
            &&& after.pings == cluster.pings.insert(first.id, PingView { from: second, timestamp: second_time })
        }),
{
}

} // verus!
