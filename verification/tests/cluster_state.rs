use std::time::{Duration, SystemTime, UNIX_EPOCH};

use noronha::cluster::{initialize, Cluster};
use noronha::configuration::Configuration;
use noronha::node::{Node, UnknownNode};

fn configuration(peers: &[&str]) -> Configuration {
    Configuration {
        cluster_name: "noronha".to_string(),
        node_name: "first".to_string(),
        bind_host: "0.0.0.0".to_string(),
        publish_host: "10.0.0.1".to_string(),
        cluster_peers: peers.iter().map(|peer| peer.to_string()).collect(),
        http_resources_port: 6500,
        http_resources_workers: 2,
        http_transport_port: 7000,
        http_transport_workers: 1,
        http_transport_pinger_connect_timeout: 1000,
        http_transport_pinger_schedule: 5000,
        log_config_file: "config/log4rs.yml".to_string(),
    }
}

fn node(id: u128, address: &str, name: &str) -> Node {
    Node { id, address: address.to_string(), name: name.to_string() }
}

fn unknown(address: &str) -> UnknownNode {
    UnknownNode { address: address.to_string() }
}

#[test]
fn cluster_made_from_settings() {
    let cluster = Cluster::make(&configuration(&["10.0.0.2:7000", "10.0.0.3:7000"]), 42, "0.1.0");
    assert_eq!(cluster.leader, None);
    assert_eq!(cluster.name, "noronha");
    assert_eq!(cluster.node, node(42, "10.0.0.1:7000", "first"));
    assert_eq!(cluster.unknown_peers.len(), 2);
    assert!(cluster.unknown_peers.contains(&unknown("10.0.0.2:7000")));
    assert!(cluster.unknown_peers.contains(&unknown("10.0.0.3:7000")));
    assert!(cluster.peers.is_empty());
    assert_eq!(cluster.noronha_version, "0.1.0");
    assert!(cluster.pings.is_empty());
    assert_eq!(cluster.state_version, 0);
}

#[test]
fn cluster_made_from_settings_names_a_peer_once() {
    let cluster = Cluster::make(&configuration(&["a:1", "b:2", "a:1"]), 1, "v");
    assert_eq!(cluster.unknown_peers.len(), 2);
    let cluster = Cluster::make(&configuration(&[]), 1, "v");
    assert!(cluster.unknown_peers.is_empty());
}

#[test]
fn initialize_draws_fresh_identifiers() {
    let settings = configuration(&["10.0.0.2:7000"]);
    let first = initialize(&settings, "0.1.0");
    let second = initialize(&settings, "0.1.0");
    assert_ne!(first.node.id, second.node.id);
    assert_eq!(first.node.address, "10.0.0.1:7000");
    assert_eq!(first.node.name, "first");
    assert_eq!(first.unknown_peers, second.unknown_peers);
}

#[test]
fn identify_peer_moves_the_peer() {
    let mut cluster = Cluster::make(&configuration(&["10.0.0.2:7000", "10.0.0.3:7000"]), 1, "v");
    let peer = node(2, "10.0.0.2:7000", "second");
    let identified = cluster.identify_peer(&unknown("10.0.0.2:7000"), peer.clone());
    assert_eq!(identified, peer);
    assert_eq!(cluster.unknown_peers.len(), 1);
    assert!(cluster.unknown_peers.contains(&unknown("10.0.0.3:7000")));
    assert_eq!(cluster.peers.len(), 1);
    assert_eq!(cluster.peers.get(&2), Some(&peer));
    assert!(cluster.pings.is_empty());
}

#[test]
fn identify_peer_again_keeps_one_entry_per_identifier() {
    let mut cluster = Cluster::make(&configuration(&["a:1", "b:1"]), 1, "v");
    cluster.identify_peer(&unknown("a:1"), node(2, "a:1", "second"));
    let renamed = node(2, "b:1", "second again");
    cluster.identify_peer(&unknown("b:1"), renamed.clone());
    assert!(cluster.unknown_peers.is_empty());
    assert_eq!(cluster.peers.len(), 1);
    assert_eq!(cluster.peers.get(&2), Some(&renamed));
}

#[test]
fn membership_only_grows_over_a_run() {
    let mut cluster = Cluster::make(&configuration(&["a:1", "b:1", "c:1"]), 1, "v");
    let mut known = 0;
    let mut unidentified = cluster.unknown_peers.len();
    let steps = [("a:1", 2u128), ("x:1", 3), ("b:1", 2), ("c:1", 4), ("c:1", 5)];
    for (address, id) in steps {
        cluster.identify_peer(&unknown(address), node(id, address, "peer"));
        cluster.register_ping(node(id, address, "peer"));
        assert!(cluster.peers.len() >= known);
        assert!(cluster.unknown_peers.len() <= unidentified);
        assert!(cluster.peers.contains_key(&id));
        assert!(!cluster.unknown_peers.contains(&unknown(address)));
        known = cluster.peers.len();
        unidentified = cluster.unknown_peers.len();
    }
    assert_eq!(known, 4);
    assert_eq!(unidentified, 0);
}

#[test]
fn an_address_can_end_up_on_both_sides() {
    let mut cluster = Cluster::make(&configuration(&["a:1", "b:1"]), 1, "v");
    cluster.identify_peer(&unknown("a:1"), node(2, "b:1", "second"));
    assert!(cluster.unknown_peers.contains(&unknown("b:1")));
    assert_eq!(cluster.peers.get(&2).unwrap().address, "b:1");
}

#[test]
fn last_ping_wins() {
    let mut cluster = Cluster::make(&configuration(&[]), 1, "v");
    let t1 = UNIX_EPOCH + Duration::from_secs(100);
    let t2 = UNIX_EPOCH + Duration::from_secs(200);
    assert!(t1 < t2);
    cluster.register_ping_at(node(2, "10.0.0.2:7000", "second"), t1);
    assert_eq!(cluster.pings.get(&2).unwrap().timestamp, t1);
    cluster.register_ping_at(node(3, "10.0.0.3:7000", "third"), t1);
    cluster.register_ping_at(node(2, "10.0.0.2:7001", "second"), t2);
    assert_eq!(cluster.pings.len(), 2);
    let ping = cluster.pings.get(&2).unwrap();
    assert_eq!(ping.timestamp, t2);
    assert_eq!(ping.from, node(2, "10.0.0.2:7001", "second"));
    assert_eq!(cluster.pings.get(&3).unwrap().timestamp, t1);
    assert!(cluster.peers.is_empty());
}

#[test]
fn register_ping_notes_the_time_of_the_call() {
    let mut cluster = Cluster::make(&configuration(&[]), 1, "v");
    let before = SystemTime::now();
    cluster.register_ping(node(2, "10.0.0.2:7000", "second"));
    let after = SystemTime::now();
    let ping = cluster.pings.get(&2).unwrap();
    assert_eq!(ping.from, node(2, "10.0.0.2:7000", "second"));
    assert!(before <= ping.timestamp && ping.timestamp <= after);
    assert_eq!(ping.clone(), *ping);
}

#[test]
fn make_pong_describes_the_node() {
    let cluster = Cluster::make(&configuration(&[]), 9, "v");
    let before = SystemTime::now();
    let pong = cluster.make_pong();
    let after = SystemTime::now();
    assert_eq!(pong.from, node(9, "10.0.0.1:7000", "first"));
    assert!(before <= pong.timestamp && pong.timestamp <= after);
}

#[test]
fn nodes_are_the_peers_and_the_node_itself() {
    let mut cluster = Cluster::make(&configuration(&["a:1"]), 1, "v");
    cluster.identify_peer(&unknown("a:1"), node(2, "a:1", "second"));
    let nodes = cluster.nodes();
    assert_eq!(nodes.len(), 2);
    assert_eq!(nodes.get(&1), Some(&node(1, "10.0.0.1:7000", "first")));
    assert_eq!(nodes.get(&2), Some(&node(2, "a:1", "second")));
    assert_eq!(cluster.peers.len(), 1);
}

#[test]
fn node_copies_are_equal() {
    let peer = node(2, "a:1", "second");
    assert_eq!(peer.clone(), peer);
    let unidentified = unknown("a:1");
    assert_eq!(unidentified.clone(), unidentified);
}
